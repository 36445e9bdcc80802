//! Decision core of a tmux command shim that drives WezTerm.

pub mod args;
pub mod commands;
pub mod format;
pub mod goals;
pub mod invocation;
pub mod keys;
pub mod launcher;
pub mod laws;
pub mod log;
pub mod options;
pub mod panes;
pub mod paths;
pub mod programs;
pub mod resume;
pub mod state;
pub mod table;
pub mod text;
pub mod turn;
