//! Laws that hold across the operations of the library.

pub mod calls;
pub mod launch;
pub mod lines;
pub mod options;
pub mod pairing;
pub mod places;
pub mod steps;
pub mod targets;
pub mod texts;
pub mod views;
pub mod words;
