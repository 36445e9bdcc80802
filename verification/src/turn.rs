//! Turns: what a command does until it needs something from outside.
//!
//! A command runs as a series of turns. Each turn has effects, carried out in
//! order, and then either ends the command or asks for something: the live
//! panes, a WezTerm call, a file, or a bash program. What is still to be done
//! once the answer is there travels with the question.
//!
//! The types are generic in their texts, word lists and pane lists, so that
//! running code (`String`, `Vec`) and contracts (`Seq`) share them.

use crate::panes::WezPane;
use crate::text::{opt_text, texts};
use vstd::prelude::*;

verus! {

/// The subcommands that the shim knows.
#[derive(Clone, Copy, Debug, PartialEq, Eq, Structural)]
pub enum Subcommand {
    HasSession,
    NewSession,
    NewWindow,
    SplitWindow,
    ListPanes,
    DisplayMessage,
    SelectPane,
    SetOption,
    ResizePane,
    RespawnPane,
    SetEnvironment,
    ShowEnvironment,
    BreakPane,
    KillPane,
    KillWindow,
    SendKeys,
    CapturePane,
    /// accepted on purpose without doing anything
    Accepted,
    /// not known
    Unknown,
}

/// Something worth a line in the log.
#[derive(Debug, PartialEq, Eq)]
pub enum Notice<S, L> {
    /// a target could not be resolved
    Unresolved { command: Subcommand, target: S },
    /// `split-pane` failed
    SplitFailed { exit: i32 },
    /// `split-pane` gave no pane id
    SyntheticId,
    /// a tab title is set
    SetTitle { target: S, title: S },
    /// a close policy is stored
    Policy { target: S, pane: u64, value: S },
    /// `respawn-pane` without a command
    NothingToRun,
    /// the bash program that runs a launcher
    UsingBash { bash: S },
    /// no bash program was found
    NoBash,
    /// text is typed into a pane
    Typing { target: S, pane: u64, literal: bool, text: S },
    /// captured text has nowhere to go
    NotPrinted,
    /// a variable is stored
    SetVariable { name: S, value: S },
    /// a pane is closed
    KillPane { target: S, pane: u64 },
    /// how closing a pane ended
    KillPaneExit { exit: i32 },
    /// the panes of a window are closed
    KillWindow { window: u64 },
    /// how closing one pane of a window ended
    KilledInWindow { pane: u64, exit: i32 },
    /// a subcommand that is accepted without doing anything
    NoOp { subcommand: S },
    /// a subcommand that is not known
    Unhandled { subcommand: S, args: L },
}

/// What a turn does on the way.
#[derive(Debug, PartialEq, Eq)]
pub enum Effect<S, L> {
    /// text to standard output, as it is
    Print(S),
    /// a line to standard output
    Line(S),
    /// a line to standard error
    Warn(S),
    /// the state is saved
    Save,
    /// a line in the log
    Note(Notice<S, L>),
}

/// What a command wants with the pane that its target stands for.
#[derive(Debug, PartialEq, Eq)]
pub enum Goal<S, L, P> {
    Split { horizontal: bool, print: bool, format: S },
    SetPolicy { value: S },
    Respawn { command: L },
    Type { tokens: L, literal: bool },
    Capture { print: bool, start: Option<S>, end: Option<S>, escapes: bool },
    Kill,
    /// close the window of the pane; `panes` were the live panes when the
    /// command began, `target` is the target as it was given
    KillWindow { target: S, panes: P },
}

/// What is to be done once the live panes are known.
#[derive(Debug, PartialEq, Eq)]
pub enum OnPanes<S, L, P> {
    /// give the first pane an id and show it
    NewPane { format: S },
    /// resolve a target, then go for the goal
    Target { target: S, goal: Goal<S, L, P> },
    /// show the pane that a split made
    SplitShown { tmux_id: S, format: S },
    /// list panes
    Listing { target: S, format: S },
    /// show a message about the current pane
    Message { current: S, format: S },
    /// find the window to close
    Window { target: S },
}

/// What is to be done once WezTerm has run.
#[derive(Debug, PartialEq, Eq)]
pub enum OnRun<S, P> {
    /// a pane was split
    Split { print: bool, format: S },
    /// nothing more
    Finish,
    /// text was captured
    Captured { print: bool },
    /// a pane was closed
    Killed { pane: u64 },
    /// one pane of a window was closed; `rest` are still to be closed
    KilledInWindow { pane: u64, rest: P },
}

/// What is to be done once a launcher file is written.
#[derive(Clone, Copy, Debug, PartialEq, Eq, Structural)]
pub enum OnWrite {
    /// the bash script of a pane
    Script { pane: u64 },
    /// the batch file of a pane
    Wrapper { pane: u64 },
}

/// How a turn ends.
#[derive(Debug, PartialEq, Eq)]
pub enum Next<S, L, P> {
    /// ask for the live panes
    List(OnPanes<S, L, P>),
    /// run WezTerm with these arguments
    Run(L, OnRun<S, P>),
    /// write a file in the shim's directory
    Write { name: S, content: S, task: OnWrite },
    /// find a bash program for the launcher of a pane
    FindBash { pane: u64 },
    /// end with this exit code
    Exit(i32),
}

pub type EffectView = Effect<Seq<char>, Seq<Seq<char>>>;

pub type GoalView = Goal<Seq<char>, Seq<Seq<char>>, Seq<WezPane>>;

pub type OnPanesView = OnPanes<Seq<char>, Seq<Seq<char>>, Seq<WezPane>>;

pub type OnRunView = OnRun<Seq<char>, Seq<WezPane>>;

pub type NextView = Next<Seq<char>, Seq<Seq<char>>, Seq<WezPane>>;

/// One turn of a command.
#[derive(Debug, PartialEq, Eq)]
pub struct Turn {
    pub effects: Vec<Effect<String, Vec<String>>>,
    pub next: Next<String, Vec<String>, Vec<WezPane>>,
}

/// The model of [`Turn`].
pub struct TurnView {
    pub effects: Seq<EffectView>,
    pub next: NextView,
}

impl View for Notice<String, Vec<String>> {
    type V = Notice<Seq<char>, Seq<Seq<char>>>;

    open spec fn view(&self) -> Notice<Seq<char>, Seq<Seq<char>>> {
        match *self {
            Notice::Unresolved { command, target } => Notice::Unresolved {
                command,
                target: target@,
            },
            Notice::SplitFailed { exit } => Notice::SplitFailed { exit },
            Notice::SyntheticId => Notice::SyntheticId,
            Notice::SetTitle { target, title } => Notice::SetTitle {
                target: target@,
                title: title@,
            },
            Notice::Policy { target, pane, value } => Notice::Policy {
                target: target@,
                pane,
                value: value@,
            },
            Notice::NothingToRun => Notice::NothingToRun,
            Notice::UsingBash { bash } => Notice::UsingBash { bash: bash@ },
            Notice::NoBash => Notice::NoBash,
            Notice::Typing { target, pane, literal, text } => Notice::Typing {
                target: target@,
                pane,
                literal,
                text: text@,
            },
            Notice::NotPrinted => Notice::NotPrinted,
            Notice::SetVariable { name, value } => Notice::SetVariable {
                name: name@,
                value: value@,
            },
            Notice::KillPane { target, pane } => Notice::KillPane { target: target@, pane },
            Notice::KillPaneExit { exit } => Notice::KillPaneExit { exit },
            Notice::KillWindow { window } => Notice::KillWindow { window },
            Notice::KilledInWindow { pane, exit } => Notice::KilledInWindow { pane, exit },
            Notice::NoOp { subcommand } => Notice::NoOp { subcommand: subcommand@ },
            Notice::Unhandled { subcommand, args } => Notice::Unhandled {
                subcommand: subcommand@,
                args: texts(args@),
            },
        }
    }
}

impl View for Effect<String, Vec<String>> {
    type V = EffectView;

    open spec fn view(&self) -> EffectView {
        match *self {
            Effect::Print(text) => Effect::Print(text@),
            Effect::Line(text) => Effect::Line(text@),
            Effect::Warn(text) => Effect::Warn(text@),
            Effect::Save => Effect::Save,
            Effect::Note(notice) => Effect::Note(notice@),
        }
    }
}

impl View for Goal<String, Vec<String>, Vec<WezPane>> {
    type V = GoalView;

    open spec fn view(&self) -> GoalView {
        match *self {
            Goal::Split { horizontal, print, format } => Goal::Split {
                horizontal,
                print,
                format: format@,
            },
            Goal::SetPolicy { value } => Goal::SetPolicy { value: value@ },
            Goal::Respawn { command } => Goal::Respawn { command: texts(command@) },
            Goal::Type { tokens, literal } => Goal::Type { tokens: texts(tokens@), literal },
            Goal::Capture { print, start, end, escapes } => Goal::Capture {
                print,
                start: opt_text(start),
                end: opt_text(end),
                escapes,
            },
            Goal::Kill => Goal::Kill,
            Goal::KillWindow { target, panes } => Goal::KillWindow {
                target: target@,
                panes: panes@,
            },
        }
    }
}

impl View for OnPanes<String, Vec<String>, Vec<WezPane>> {
    type V = OnPanesView;

    open spec fn view(&self) -> OnPanesView {
        match *self {
            OnPanes::NewPane { format } => OnPanes::NewPane { format: format@ },
            OnPanes::Target { target, goal } => OnPanes::Target { target: target@, goal: goal@ },
            OnPanes::SplitShown { tmux_id, format } => OnPanes::SplitShown {
                tmux_id: tmux_id@,
                format: format@,
            },
            OnPanes::Listing { target, format } => OnPanes::Listing {
                target: target@,
                format: format@,
            },
            OnPanes::Message { current, format } => OnPanes::Message {
                current: current@,
                format: format@,
            },
            OnPanes::Window { target } => OnPanes::Window { target: target@ },
        }
    }
}

impl View for OnRun<String, Vec<WezPane>> {
    type V = OnRunView;

    open spec fn view(&self) -> OnRunView {
        match *self {
            OnRun::Split { print, format } => OnRun::Split { print, format: format@ },
            OnRun::Finish => OnRun::Finish,
            OnRun::Captured { print } => OnRun::Captured { print },
            OnRun::Killed { pane } => OnRun::Killed { pane },
            OnRun::KilledInWindow { pane, rest } => OnRun::KilledInWindow { pane, rest: rest@ },
        }
    }
}

impl View for Next<String, Vec<String>, Vec<WezPane>> {
    type V = NextView;

    open spec fn view(&self) -> NextView {
        match *self {
            Next::List(task) => Next::List(task@),
            Next::Run(args, task) => Next::Run(texts(args@), task@),
            Next::Write { name, content, task } => Next::Write {
                name: name@,
                content: content@,
                task,
            },
            Next::FindBash { pane } => Next::FindBash { pane },
            Next::Exit(code) => Next::Exit(code),
        }
    }
}

/// The contents of a list of effects.
pub open spec fn effects_of(list: Seq<Effect<String, Vec<String>>>) -> Seq<EffectView> {
    list.map_values(|e: Effect<String, Vec<String>>| e@)
}

impl View for Turn {
    type V = TurnView;

    open spec fn view(&self) -> TurnView {
        TurnView { effects: effects_of(self.effects@), next: self.next@ }
    }
}

/// A turn without effects that ends the command.
pub open spec fn exit_turn(code: i32) -> TurnView {
    TurnView { effects: Seq::empty(), next: Next::Exit(code) }
}

/// Ends a command without any effect.
pub fn exit_now(code: i32) -> (t: Turn)
    ensures
        t@ == exit_turn(code),
{
    plain_turn(Next::Exit(code))
}

/// A turn without effects.
pub fn plain_turn(next: Next<String, Vec<String>, Vec<WezPane>>) -> (t: Turn)
    ensures
        t@ == (TurnView { effects: Seq::empty(), next: next@ }),
{
    let t = Turn { effects: Vec::new(), next };
    assert(t@.effects =~= Seq::<EffectView>::empty());
    t
}

/// A turn with one effect.
pub fn turn_with(
    effect: Effect<String, Vec<String>>,
    next: Next<String, Vec<String>, Vec<WezPane>>,
) -> (t: Turn)
    ensures
        t@ == (TurnView { effects: seq![effect@], next: next@ }),
{
    let mut effects: Vec<Effect<String, Vec<String>>> = Vec::new();
    effects.push(effect);
    let t = Turn { effects, next };
    assert(t@.effects =~= seq![effect@]);
    t
}

/// A turn with two effects.
pub fn turn_with_two(
    first: Effect<String, Vec<String>>,
    second: Effect<String, Vec<String>>,
    next: Next<String, Vec<String>, Vec<WezPane>>,
) -> (t: Turn)
    ensures
        t@ == (TurnView { effects: seq![first@, second@], next: next@ }),
{
    let mut effects: Vec<Effect<String, Vec<String>>> = Vec::new();
    effects.push(first);
    effects.push(second);
    let t = Turn { effects, next };
    assert(t@.effects =~= seq![first@, second@]);
    t
}

} // verus!
