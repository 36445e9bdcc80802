//! The later turns of commands: what is done with an answer from outside.

use crate::format::{apply_format, formatted};
use crate::goals::{
    begin_close_window, close_next, close_panes, close_window, give_up, goal_outcome, goes_on,
    panes_of_window, pursue, seek_given, seek_or_current, typing_args, typing_call, unresolved,
    window_panes, Outcome,
};
use crate::launcher::{
    script_file, script_name, wrapper_file, wrapper_name, wrapper_script, wrapper_text,
};
use crate::panes::{
    find_host_pane, first_pane, front_pane, host_pane, real_pane, resolve_current_pane,
    resolve_target, show_window, target_pane, target_state, window_text, Env, EnvView, WezPane,
};
use crate::paths::{in_dir, join_path, PathStyle};
use crate::state::{tmux_id, State, StateView};
use crate::text::{
    after_prefix, opt_text, parse_u64, parsed_u64, replace_all, replaced, strip_prefix, trim,
    trimmed,
};
use crate::turn::{
    effects_of, exit_now, plain_turn, turn_with, turn_with_two, Effect, EffectView, Goal, Next,
    Notice, OnPanes, OnPanesView, OnRun, OnRunView, OnWrite, Subcommand, Turn, TurnView,
};
use vstd::prelude::*;

verus! {

/// A turn that shows a line, saves the state and ends the command.
pub open spec fn line_turn(line: Seq<char>) -> TurnView {
    TurnView { effects: seq![Effect::Line(line), Effect::Save], next: Next::Exit(0) }
}

/// A step that shows a line, saves the state and ends the command.
pub open spec fn shows(s: StateView, line: Seq<char>) -> Outcome {
    Outcome { state: s, turn: line_turn(line) }
}

// ------------------------------------------------------------------ live panes

/// The window that a target names by its id, such as `@3`.
pub open spec fn window_filter(target: Seq<char>) -> Option<u64> {
    match after_prefix(target, seq!['@']) {
        Some(rest) => parsed_u64(rest),
        None => None,
    }
}

/// The panes that `list-panes` shows: those of the window that the target
/// names, or all.
pub open spec fn shown_panes(target: Seq<char>, panes: Seq<WezPane>) -> Seq<WezPane> {
    match window_filter(target) {
        Some(window) => window_panes(panes, window),
        None => panes,
    }
}

/// The line that shows a pane; `current` says whether it is the current one.
pub open spec fn pane_line(
    format: Seq<char>,
    id: Seq<char>,
    pane: WezPane,
    current: bool,
) -> Seq<char> {
    let mark = if current {
        "1"@
    } else {
        "0"@
    };
    let line = formatted(format, Some(id), Some(window_text(Some(pane))));
    replaced(replaced(line, "#{pane_active}"@, mark), "#{pane_current}"@, mark)
}

/// The state once every pane shown has an id.
pub open spec fn listed_state(s: StateView, panes: Seq<WezPane>) -> StateView
    decreases panes.len(),
{
    if panes.len() == 0 {
        s
    } else {
        listed_state(s, panes.drop_last()).with_id_for(panes.last().pane_id)
    }
}

/// One line per pane shown. `current` is the current pane.
pub open spec fn listed_lines(
    s: StateView,
    format: Seq<char>,
    current: Option<u64>,
    panes: Seq<WezPane>,
) -> Seq<EffectView>
    decreases panes.len(),
{
    if panes.len() == 0 {
        Seq::empty()
    } else {
        let last = panes.last();
        let before = listed_state(s, panes.drop_last());
        listed_lines(s, format, current, panes.drop_last()).push(
            Effect::Line(
                pane_line(
                    format,
                    before.id_of(last.pane_id),
                    last,
                    current == Some(last.pane_id),
                ),
            ),
        )
    }
}

/// `list-panes`, once the live panes are known.
pub open spec fn listing_outcome(
    target: Seq<char>,
    format: Seq<char>,
    panes: Seq<WezPane>,
    env: EnvView,
    s: StateView,
) -> Outcome {
    let now = env.current_state(s);
    let shown = shown_panes(target, panes);
    goes_on(
        listed_state(now, shown),
        listed_lines(now, format, env.real_pane(), shown).push(Effect::Save),
        Next::Exit(0),
    )
}

/// The pane whose window `display-message` names: the one that `WEZTERM_PANE`
/// names, if it is live, or else the first one.
pub open spec fn message_pane(env: EnvView, panes: Seq<WezPane>) -> Option<WezPane> {
    match host_pane(env, panes) {
        Some(p) => Some(p),
        None => first_pane(panes),
    }
}

/// The step that follows once the live panes are known.
pub open spec fn panes_outcome(
    task: OnPanesView,
    panes: Seq<WezPane>,
    env: EnvView,
    s: StateView,
) -> Outcome {
    match task {
        OnPanes::NewPane { format } => {
            let first = first_pane(panes);
            let id = match first {
                Some(p) => p.pane_id,
                None => 0,
            };
            shows(
                s.with_id_for(id),
                formatted(format, Some(s.id_of(id)), Some(window_text(first))),
            )
        },
        OnPanes::Target { target, goal } => goal_outcome(
            goal,
            target,
            target_pane(target, env, s, panes),
            target_state(target, env, s),
        ),
        OnPanes::SplitShown { tmux_id, format } => shows(
            s,
            formatted(format, Some(tmux_id), Some(window_text(first_pane(panes)))),
        ),
        OnPanes::Listing { target, format } => listing_outcome(target, format, panes, env, s),
        OnPanes::Message { current, format } => shows(
            s,
            formatted(
                format,
                Some(current),
                Some(window_text(message_pane(env, panes))),
            ),
        ),
        OnPanes::Window { target } => if after_prefix(target, seq!['@']) is Some {
            match window_filter(target) {
                Some(window) => close_window(s, window, panes),
                None => unresolved(s, Subcommand::KillWindow, target),
            }
        } else {
            seek_or_current(target, Goal::KillWindow { target, panes }, env, s)
        },
    }
}

/// What follows the `@` of a target that begins with one.
fn after_at(target: &str) -> (r: Option<String>)
    ensures
        opt_text(r) == after_prefix(target@, seq!['@']),
{
    proof {
        reveal_strlit("@");
        assert("@"@ =~= seq!['@']);
    }
    strip_prefix(target, "@")
}

/// The window that a target names by its id.
pub fn parse_window(target: &str) -> (r: Option<u64>)
    ensures
        r == window_filter(target@),
{
    match after_at(target) {
        Some(rest) => parse_u64(rest.as_str()),
        None => None,
    }
}

/// The line that shows a pane.
pub fn show_pane(format: &str, id: &str, pane: WezPane, current: bool) -> (r: String)
    ensures
        r@ == pane_line(format@, id@, pane, current),
{
    proof {
        reveal_strlit("#{pane_active}");
        reveal_strlit("#{pane_current}");
    }
    let window = show_window(Some(pane));
    let line = apply_format(format, Some(id), Some(window.as_str()));
    let mark: &str = if current {
        "1"
    } else {
        "0"
    };
    let line = replace_all(line.as_str(), "#{pane_active}", mark);
    replace_all(line.as_str(), "#{pane_current}", mark)
}

fn show_line(format: &str, id: &str, pane: Option<WezPane>) -> (t: Turn)
    ensures
        t@ == line_turn(formatted(format@, Some(id@), Some(window_text(pane)))),
{
    let window = show_window(pane);
    let line = apply_format(format, Some(id), Some(window.as_str()));
    turn_with_two(Effect::Line(line), Effect::Save, Next::Exit(0))
}

fn list_panes(target: &str, format: &str, panes: &[WezPane], env: &Env, state: &mut State) -> (t:
    Turn)
    ensures
        t@ == listing_outcome(target@, format@, panes@, env@, old(state)@).turn,
        final(state)@ == listing_outcome(target@, format@, panes@, env@, old(state)@).state,
{
    let _ = resolve_current_pane(state, env);
    let current = real_pane(env);
    let all: Vec<WezPane>;
    let shown: &[WezPane] = match parse_window(target) {
        Some(window) => {
            all = panes_of_window(panes, window);
            all.as_slice()
        },
        None => panes,
    };
    let ghost now = state@;
    let mut effects: Vec<Effect<String, Vec<String>>> = Vec::new();
    assert(shown@.take(0) =~= Seq::<WezPane>::empty());
    assert(effects_of(effects@) =~= Seq::<EffectView>::empty());
    for i in 0..shown.len()
        invariant
            state@ == listed_state(now, shown@.take(i as int)),
            effects_of(effects@) == listed_lines(now, format@, current, shown@.take(i as int)),
    {
        let pane = shown[i];
        let ghost before = effects_of(effects@);
        assert(shown@.take(i + 1).drop_last() =~= shown@.take(i as int));
        let id = state.tmux_id_for_wez(pane.pane_id);
        let is_current = match current {
            Some(c) => c == pane.pane_id,
            None => false,
        };
        let line = Effect::Line(show_pane(format, id.as_str(), pane, is_current));
        effects.push(line);
        assert(effects_of(effects@) =~= before.push(line@));
    }
    assert(shown@.take(shown@.len() as int) =~= shown@);
    let ghost before = effects_of(effects@);
    effects.push(Effect::Save);
    let t = Turn { effects, next: Next::Exit(0) };
    assert(t@.effects =~= before.push(Effect::Save));
    t
}

/// Goes on with a command once the live panes are known.
pub fn resume_panes(
    task: OnPanes<String, Vec<String>, Vec<WezPane>>,
    panes: Vec<WezPane>,
    env: &Env,
    state: &mut State,
) -> (t: Turn)
    ensures
        t@ == panes_outcome(task@, panes@, env@, old(state)@).turn,
        final(state)@ == panes_outcome(task@, panes@, env@, old(state)@).state,
{
    match task {
        OnPanes::NewPane { format } => {
            let first = front_pane(panes.as_slice());
            let id: u64 = match first {
                Some(p) => p.pane_id,
                None => 0,
            };
            let tmux_id = state.alloc_pane(id);
            show_line(format.as_str(), tmux_id.as_str(), first)
        },
        OnPanes::Target { target, goal } => {
            let pane = resolve_target(target.as_str(), state, env, panes.as_slice());
            pursue(goal, target.as_str(), pane, state)
        },
        OnPanes::SplitShown { tmux_id, format } => {
            show_line(format.as_str(), tmux_id.as_str(), front_pane(panes.as_slice()))
        },
        OnPanes::Listing { target, format } => list_panes(
            target.as_str(),
            format.as_str(),
            panes.as_slice(),
            env,
            state,
        ),
        OnPanes::Message { current, format } => {
            let pane: Option<WezPane> = match find_host_pane(env, panes.as_slice()) {
                Some(p) => Some(p),
                None => front_pane(panes.as_slice()),
            };
            show_line(format.as_str(), current.as_str(), pane)
        },
        OnPanes::Window { target } => {
            if after_at(target.as_str()).is_some() {
                match parse_window(target.as_str()) {
                    Some(window) => begin_close_window(window, panes.as_slice()),
                    None => give_up(Subcommand::KillWindow, target.as_str()),
                }
            } else {
                let given = target.clone();
                seek_given(given, Goal::KillWindow { target, panes }, env, state)
            }
        },
    }
}

// --------------------------------------------------------------- WezTerm calls

/// The pane that `split-pane` made, as it printed it.
pub open spec fn new_pane_id(stdout: Seq<char>) -> Option<u64> {
    parsed_u64(trimmed(stdout))
}

/// A note, if something happened.
pub open spec fn note_if(
    happened: bool,
    notice: Notice<Seq<char>, Seq<Seq<char>>>,
) -> Seq<EffectView> {
    if happened {
        seq![Effect::Note(notice)]
    } else {
        Seq::empty()
    }
}

/// `split-window`, once WezTerm has run: the new pane gets an id, or an id is
/// made up for it.
pub open spec fn split_done(
    print: bool,
    format: Seq<char>,
    stdout: Seq<char>,
    exit: i32,
    s: StateView,
) -> Outcome {
    let made = new_pane_id(stdout);
    let state = match made {
        Some(id) => s.with_id_for(id),
        None => s.advance(),
    };
    let id = match made {
        Some(id) => s.id_of(id),
        None => tmux_id(s.next_pane),
    };
    let notes = note_if(exit != 0, Notice::SplitFailed { exit }) + note_if(
        made is None,
        Notice::SyntheticId,
    );
    if print {
        goes_on(state, notes, Next::List(OnPanes::SplitShown { tmux_id: id, format }))
    } else {
        goes_on(state, notes.push(Effect::Save), Next::Exit(0))
    }
}

/// The step that follows once WezTerm has run.
pub open spec fn run_outcome(task: OnRunView, stdout: Seq<char>, exit: i32, s: StateView) -> Outcome {
    match task {
        OnRun::Split { print, format } => split_done(print, format, stdout, exit, s),
        OnRun::Finish => goes_on(s, Seq::empty(), Next::Exit(0)),
        OnRun::Captured { print } => goes_on(
            s,
            seq![
                if print {
                    Effect::Print(stdout)
                } else {
                    Effect::Note(Notice::NotPrinted)
                },
            ],
            Next::Exit(0),
        ),
        OnRun::Killed { pane } => goes_on(
            s.forget(pane),
            seq![Effect::Note(Notice::KillPaneExit { exit }), Effect::Save],
            Next::Exit(0),
        ),
        OnRun::KilledInWindow { pane, rest } => {
            let (effects, next) = close_next(rest);
            goes_on(
                s.forget(pane),
                seq![Effect::Note(Notice::KilledInWindow { pane, exit })] + effects,
                next,
            )
        },
    }
}

fn finish_split(print: bool, format: String, stdout: &str, exit: i32, state: &mut State) -> (t:
    Turn)
    ensures
        t@ == split_done(print, format@, stdout@, exit, old(state)@).turn,
        final(state)@ == split_done(print, format@, stdout@, exit, old(state)@).state,
{
    let mut effects: Vec<Effect<String, Vec<String>>> = Vec::new();
    if exit != 0 {
        effects.push(Effect::Note(Notice::SplitFailed { exit }));
    }
    let ghost failed = note_if(exit != 0, Notice::SplitFailed { exit });
    assert(effects_of(effects@) =~= failed);
    let made = parse_u64(trim(stdout).as_str());
    let id: String = match made {
        Some(pane) => state.alloc_pane(pane),
        None => {
            effects.push(Effect::Note(Notice::SyntheticId));
            state.synthetic_pane()
        },
    };
    let ghost notes = failed + note_if(made is None, Notice::SyntheticId);
    assert(effects_of(effects@) =~= notes);
    if print {
        Turn { effects, next: Next::List(OnPanes::SplitShown { tmux_id: id, format }) }
    } else {
        effects.push(Effect::Save);
        assert(effects_of(effects@) =~= notes.push(Effect::Save));
        Turn { effects, next: Next::Exit(0) }
    }
}

/// Goes on with a command once WezTerm has run. `stdout` is what it printed,
/// `exit` its exit code.
pub fn resume_run(
    task: OnRun<String, Vec<WezPane>>,
    stdout: String,
    exit: i32,
    state: &mut State,
) -> (t: Turn)
    ensures
        t@ == run_outcome(task@, stdout@, exit, old(state)@).turn,
        final(state)@ == run_outcome(task@, stdout@, exit, old(state)@).state,
{
    match task {
        OnRun::Split { print, format } => finish_split(print, format, stdout.as_str(), exit, state),
        OnRun::Finish => exit_now(0),
        OnRun::Captured { print } => {
            if print {
                turn_with(Effect::Print(stdout), Next::Exit(0))
            } else {
                turn_with(Effect::Note(Notice::NotPrinted), Next::Exit(0))
            }
        },
        OnRun::Killed { pane } => {
            state.forget_pane(pane);
            turn_with_two(
                Effect::Note(Notice::KillPaneExit { exit }),
                Effect::Save,
                Next::Exit(0),
            )
        },
        OnRun::KilledInWindow { pane, rest } => {
            state.forget_pane(pane);
            close_panes(Effect::Note(Notice::KilledInWindow { pane, exit }), rest)
        },
    }
}

// ------------------------------------------------------------------- launchers

/// The turn that follows once a launcher file is written, or could not be.
/// The launcher of a pane is started by typing its path and a carriage return.
pub open spec fn write_turn(
    task: OnWrite,
    written: bool,
    style: PathStyle,
    dir: Seq<char>,
) -> TurnView {
    let next = match task {
        OnWrite::Script { pane } if written => Next::FindBash { pane },
        OnWrite::Wrapper { pane } if written => Next::Run(
            typing_call(pane, in_dir(style, dir, wrapper_name(pane)) + seq!['\r']),
            OnRun::Finish,
        ),
        _ => Next::Exit(0),
    };
    TurnView { effects: Seq::empty(), next }
}

/// Goes on with `respawn-pane` once a launcher file is written, or could not
/// be. `dir` is the shim's directory.
pub fn resume_write(task: OnWrite, written: bool, style: PathStyle, dir: &str) -> (t: Turn)
    ensures
        t@ == write_turn(task, written, style, dir@),
{
    if !written {
        return exit_now(0);
    }
    match task {
        OnWrite::Script { pane } => plain_turn(Next::FindBash { pane }),
        OnWrite::Wrapper { pane } => {
            let name = wrapper_file(pane);
            let mut typed = join_path(style, dir, name.as_str());
            typed.push('\r');
            assert(typed@ =~= in_dir(style, dir@, wrapper_name(pane)) + seq!['\r']);
            plain_turn(Next::Run(typing_args(pane, typed.as_str()), OnRun::Finish))
        },
    }
}

/// The turn that follows once a bash program has been looked for: the batch
/// file is written, with plain `bash` if none was found.
pub open spec fn bash_turn(
    pane: u64,
    bash: Option<Seq<char>>,
    style: PathStyle,
    dir: Seq<char>,
) -> TurnView {
    let (program, notice) = match bash {
        Some(b) => (b, Notice::UsingBash { bash: b }),
        None => ("bash"@, Notice::NoBash),
    };
    TurnView {
        effects: seq![Effect::Note(notice)],
        next: Next::Write {
            name: wrapper_name(pane),
            content: wrapper_text(program, in_dir(style, dir, script_name(pane))),
            task: OnWrite::Wrapper { pane },
        },
    }
}

/// Goes on with `respawn-pane` once a bash program has been looked for.
pub fn resume_bash(pane: u64, bash: Option<String>, style: PathStyle, dir: &str) -> (t: Turn)
    ensures
        t@ == bash_turn(pane, opt_text(bash), style, dir@),
{
    let name = script_file(pane);
    let script = join_path(style, dir, name.as_str());
    let notice: Notice<String, Vec<String>>;
    let program: String;
    match bash {
        Some(b) => {
            program = b.clone();
            notice = Notice::UsingBash { bash: b };
        },
        None => {
            program = "bash".to_owned();
            notice = Notice::NoBash;
        },
    }
    turn_with(
        Effect::Note(notice),
        Next::Write {
            name: wrapper_file(pane),
            content: wrapper_script(program.as_str(), script.as_str()),
            task: OnWrite::Wrapper { pane },
        },
    )
}

} // verus!
