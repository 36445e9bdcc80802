//! What commands do with the pane that their target stands for.

use crate::keys::{build_send_text, send_text};
use crate::launcher::{respawn_script, script_file, script_name, script_text};
use crate::panes::{
    find_pane, is_name, needs_panes, pane_with_id, resolve_current_pane, resolve_target,
    target_pane, Env, EnvView, WezPane,
};
use crate::state::{State, StateView};
use crate::text::{decimal, join, joined, opt_text, show_u64, texts};
use crate::turn::{
    plain_turn, turn_with, turn_with_two, Effect, EffectView, Goal, GoalView, Next, NextView,
    Notice, OnPanes, OnRun, OnWrite, Subcommand, Turn, TurnView,
};
use vstd::prelude::*;

verus! {

/// The state and the turn that come out of a step.
pub struct Outcome {
    pub state: StateView,
    pub turn: TurnView,
}

/// A step that leaves the state alone and goes on with `next`.
pub open spec fn goes_on(s: StateView, effects: Seq<EffectView>, next: NextView) -> Outcome {
    Outcome { state: s, turn: TurnView { effects, next } }
}

/// The arguments of a WezTerm call about a pane.
pub open spec fn pane_call(verb: Seq<char>, pane: u64) -> Seq<Seq<char>> {
    seq!["cli"@, verb, "--pane-id"@, decimal(pane as nat)]
}

/// The arguments of the call that types a text into a pane.
pub open spec fn typing_call(pane: u64, text: Seq<char>) -> Seq<Seq<char>> {
    pane_call("send-text"@, pane) + seq!["--no-paste"@, text]
}

/// The arguments of the call that splits a pane.
pub open spec fn split_call(pane: u64, horizontal: bool) -> Seq<Seq<char>> {
    pane_call("split-pane"@, pane).push(
        if horizontal {
            "--horizontal"@
        } else {
            "--bottom"@
        },
    )
}

/// A word and its value, if there is a value.
pub open spec fn optional_words(word: Seq<char>, value: Option<Seq<char>>) -> Seq<Seq<char>> {
    match value {
        Some(v) => seq![word, v],
        None => Seq::empty(),
    }
}

/// The arguments of the call that captures the text of a pane.
pub open spec fn capture_call(
    pane: u64,
    start: Option<Seq<char>>,
    end: Option<Seq<char>>,
    escapes: bool,
) -> Seq<Seq<char>> {
    pane_call("get-text"@, pane) + optional_words("--start-line"@, start) + optional_words(
        "--end-line"@,
        end,
    ) + (if escapes {
        seq!["--escapes"@]
    } else {
        Seq::empty()
    })
}

/// A turn that gives up on a target.
pub open spec fn give_up_turn(command: Subcommand, target: Seq<char>) -> TurnView {
    TurnView {
        effects: seq![Effect::Note(Notice::Unresolved { command, target })],
        next: Next::Exit(0),
    }
}

/// A step that gives up on a target.
pub open spec fn unresolved(s: StateView, command: Subcommand, target: Seq<char>) -> Outcome {
    Outcome { state: s, turn: give_up_turn(command, target) }
}

/// The panes of a window, in their order.
pub open spec fn window_panes(panes: Seq<WezPane>, window: u64) -> Seq<WezPane> {
    panes.filter(|p: WezPane| p.window_id == window)
}

/// How closing panes one by one goes on: with the first of them, or else with
/// saving the state.
pub open spec fn close_next(panes: Seq<WezPane>) -> (Seq<EffectView>, NextView) {
    if panes.len() > 0 {
        (
            Seq::empty(),
            Next::Run(
                pane_call("kill-pane"@, panes[0].pane_id),
                OnRun::KilledInWindow { pane: panes[0].pane_id, rest: panes.skip(1) },
            ),
        )
    } else {
        (seq![Effect::Save], Next::Exit(0))
    }
}

/// The turn that begins to close a window.
pub open spec fn close_window_turn(window: u64, panes: Seq<WezPane>) -> TurnView {
    let (effects, next) = close_next(window_panes(panes, window));
    TurnView { effects: seq![Effect::Note(Notice::KillWindow { window })] + effects, next }
}

/// The step that begins to close a window.
pub open spec fn close_window(s: StateView, window: u64, panes: Seq<WezPane>) -> Outcome {
    Outcome { state: s, turn: close_window_turn(window, panes) }
}

/// The step that goes for a goal, once it is known which pane the target
/// stands for.
pub open spec fn goal_outcome(
    goal: GoalView,
    target: Seq<char>,
    pane: Option<u64>,
    s: StateView,
) -> Outcome {
    match (goal, pane) {
        (Goal::Split { horizontal, print, format }, _) => goes_on(
            s,
            Seq::empty(),
            Next::Run(
                split_call(
                    match pane {
                        Some(id) => id,
                        None => 0,
                    },
                    horizontal,
                ),
                OnRun::Split { print, format },
            ),
        ),
        (Goal::SetPolicy { value }, Some(id)) => goes_on(
            s.with_policy(id, value),
            seq![Effect::Note(Notice::Policy { target, pane: id, value }), Effect::Save],
            Next::Exit(0),
        ),
        (Goal::SetPolicy { value }, None) => unresolved(s, Subcommand::SetOption, target),
        (Goal::Respawn { command }, Some(id)) => if command.len() == 0 {
            goes_on(s, seq![Effect::Note(Notice::NothingToRun)], Next::Exit(0))
        } else {
            goes_on(
                s,
                Seq::empty(),
                Next::Write {
                    name: script_name(id),
                    content: script_text(s, id, joined(command, " "@)),
                    task: OnWrite::Script { pane: id },
                },
            )
        },
        (Goal::Respawn { command }, None) => unresolved(s, Subcommand::RespawnPane, target),
        (Goal::Type { tokens, literal }, Some(id)) => {
            let text = send_text(tokens, literal);
            goes_on(
                s,
                seq![Effect::Note(Notice::Typing { target, pane: id, literal, text })],
                Next::Run(typing_call(id, text), OnRun::Finish),
            )
        },
        (Goal::Type { tokens, literal }, None) => unresolved(s, Subcommand::SendKeys, target),
        (Goal::Capture { print, start, end, escapes }, Some(id)) => goes_on(
            s,
            Seq::empty(),
            Next::Run(capture_call(id, start, end, escapes), OnRun::Captured { print }),
        ),
        (Goal::Capture { print, start, end, escapes }, None) => unresolved(
            s,
            Subcommand::CapturePane,
            target,
        ),
        (Goal::Kill, Some(id)) => goes_on(
            s,
            seq![Effect::Note(Notice::KillPane { target, pane: id })],
            Next::Run(pane_call("kill-pane"@, id), OnRun::Killed { pane: id }),
        ),
        (Goal::Kill, None) => unresolved(s, Subcommand::KillPane, target),
        (Goal::KillWindow { target: given, panes }, _) => {
            let found = match pane {
                Some(id) => pane_with_id(panes, id),
                None => None,
            };
            match found {
                Some(p) => close_window(s, p.window_id, panes),
                None => unresolved(s, Subcommand::KillWindow, given),
            }
        },
    }
}

/// The step that turns to a target: a name has to wait for the live panes,
/// anything else is resolved at once.
pub open spec fn seek_outcome(
    target: Seq<char>,
    goal: GoalView,
    env: EnvView,
    s: StateView,
) -> Outcome {
    if is_name(target) {
        goes_on(s, Seq::empty(), Next::List(OnPanes::Target { target, goal }))
    } else {
        goal_outcome(goal, target, target_pane(target, env, s, Seq::empty()), s)
    }
}

/// The step that turns to a target, or to the current pane if none is given.
pub open spec fn seek_or_current(
    target: Seq<char>,
    goal: GoalView,
    env: EnvView,
    s: StateView,
) -> Outcome {
    if target.len() == 0 {
        seek_outcome(env.current_id(s), goal, env, env.current_state(s))
    } else {
        seek_outcome(target, goal, env, s)
    }
}

fn push_word(args: &mut Vec<String>, word: &str)
    ensures
        texts(final(args)@) == texts(old(args)@).push(word@),
{
    let ghost before = texts(args@);
    args.push(word.to_owned());
    assert(texts(args@) =~= before.push(word@));
}

/// The arguments of the call that lists the live panes.
pub fn list_args() -> (r: Vec<String>)
    ensures
        texts(r@) == seq!["cli"@, "list"@, "--format"@, "json"@],
{
    let mut args: Vec<String> = Vec::new();
    assert(texts(args@) =~= Seq::<Seq<char>>::empty());
    push_word(&mut args, "cli");
    push_word(&mut args, "list");
    push_word(&mut args, "--format");
    push_word(&mut args, "json");
    assert(texts(args@) =~= seq!["cli"@, "list"@, "--format"@, "json"@]);
    args
}

/// The arguments of a WezTerm call about a pane.
pub fn pane_args(verb: &str, pane: u64) -> (r: Vec<String>)
    ensures
        texts(r@) == pane_call(verb@, pane),
{
    let mut args: Vec<String> = Vec::new();
    assert(texts(args@) =~= Seq::<Seq<char>>::empty());
    push_word(&mut args, "cli");
    push_word(&mut args, verb);
    push_word(&mut args, "--pane-id");
    push_word(&mut args, show_u64(pane).as_str());
    assert(texts(args@) =~= pane_call(verb@, pane));
    args
}

/// The arguments of the call that types a text into a pane.
pub fn typing_args(pane: u64, text: &str) -> (r: Vec<String>)
    ensures
        texts(r@) == typing_call(pane, text@),
{
    let mut args = pane_args("send-text", pane);
    push_word(&mut args, "--no-paste");
    push_word(&mut args, text);
    assert(texts(args@) =~= typing_call(pane, text@));
    args
}

fn capture_args(pane: u64, start: &Option<String>, end: &Option<String>, escapes: bool) -> (r: Vec<
    String,
>)
    ensures
        texts(r@) == capture_call(pane, opt_text(*start), opt_text(*end), escapes),
{
    let mut args = pane_args("get-text", pane);
    if let Some(line) = start {
        push_word(&mut args, "--start-line");
        push_word(&mut args, line.as_str());
    }
    assert(texts(args@) =~= pane_call("get-text"@, pane) + optional_words(
        "--start-line"@,
        opt_text(*start),
    ));
    let ghost before = texts(args@);
    if let Some(line) = end {
        push_word(&mut args, "--end-line");
        push_word(&mut args, line.as_str());
    }
    assert(texts(args@) =~= before + optional_words("--end-line"@, opt_text(*end)));
    if escapes {
        push_word(&mut args, "--escapes");
    }
    assert(texts(args@) =~= capture_call(pane, opt_text(*start), opt_text(*end), escapes));
    args
}

/// Gives up on a target.
pub fn give_up(command: Subcommand, target: &str) -> (t: Turn)
    ensures
        t@ == give_up_turn(command, target@),
{
    turn_with(
        Effect::Note(Notice::Unresolved { command, target: target.to_owned() }),
        Next::Exit(0),
    )
}

/// The panes of a window.
pub fn panes_of_window(panes: &[WezPane], window: u64) -> (r: Vec<WezPane>)
    ensures
        r@ == window_panes(panes@, window),
{
    let ghost keep = |p: WezPane| p.window_id == window;
    let mut out: Vec<WezPane> = Vec::new();
    proof {
        reveal(Seq::filter);
        assert(panes@.take(0).filter(keep) =~= Seq::<WezPane>::empty());
    }
    for i in 0..panes.len()
        invariant
            keep == (|p: WezPane| p.window_id == window),
            out@ == panes@.take(i as int).filter(keep),
    {
        if panes[i].window_id == window {
            out.push(panes[i]);
        }
        proof {
            reveal(Seq::filter);
            assert(panes@.take(i + 1).drop_last() =~= panes@.take(i as int));
        }
    }
    assert(panes@.take(panes@.len() as int) =~= panes@);
    out
}

/// Closes the first of `panes`, or saves the state if there is none left.
pub fn close_panes(note: Effect<String, Vec<String>>, panes: Vec<WezPane>) -> (t: Turn)
    ensures
        t@.effects == seq![note@] + close_next(panes@).0,
        t@.next == close_next(panes@).1,
{
    let mut rest = panes;
    if rest.len() > 0 {
        let first = rest.remove(0);
        let t = turn_with(
            note,
            Next::Run(
                pane_args("kill-pane", first.pane_id),
                OnRun::KilledInWindow { pane: first.pane_id, rest },
            ),
        );
        proof {
            assert(rest@ =~= panes@.skip(1));
            assert(t@.effects =~= seq![note@] + close_next(panes@).0);
        }
        t
    } else {
        let t = turn_with_two(note, Effect::Save, Next::Exit(0));
        assert(t@.effects =~= seq![note@] + close_next(panes@).0);
        t
    }
}

/// Begins to close a window.
pub fn begin_close_window(window: u64, panes: &[WezPane]) -> (t: Turn)
    ensures
        t@ == close_window_turn(window, panes@),
{
    close_panes(Effect::Note(Notice::KillWindow { window }), panes_of_window(panes, window))
}

/// Goes for a goal, once it is known which pane the target stands for.
pub fn pursue(
    goal: Goal<String, Vec<String>, Vec<WezPane>>,
    target: &str,
    pane: Option<u64>,
    state: &mut State,
) -> (t: Turn)
    ensures
        t@ == goal_outcome(goal@, target@, pane, old(state)@).turn,
        final(state)@ == goal_outcome(goal@, target@, pane, old(state)@).state,
{
    match goal {
        Goal::Split { horizontal, print, format } => {
            let id: u64 = match pane {
                Some(id) => id,
                None => 0,
            };
            let mut args = pane_args("split-pane", id);
            if horizontal {
                push_word(&mut args, "--horizontal");
            } else {
                push_word(&mut args, "--bottom");
            }
            plain_turn(Next::Run(args, OnRun::Split { print, format }))
        },
        Goal::SetPolicy { value } => {
            match pane {
                Some(id) => {
                    state.set_policy(id, value.clone());
                    turn_with_two(
                        Effect::Note(Notice::Policy { target: target.to_owned(), pane: id, value }),
                        Effect::Save,
                        Next::Exit(0),
                    )
                },
                None => give_up(Subcommand::SetOption, target),
            }
        },
        Goal::Respawn { command } => {
            match pane {
                Some(id) => {
                    if command.len() == 0 {
                        return turn_with(Effect::Note(Notice::NothingToRun), Next::Exit(0));
                    }
                    let line = join(command.as_slice(), " ");
                    plain_turn(
                        Next::Write {
                            name: script_file(id),
                            content: respawn_script(state, id, line.as_str()),
                            task: OnWrite::Script { pane: id },
                        },
                    )
                },
                None => give_up(Subcommand::RespawnPane, target),
            }
        },
        Goal::Type { tokens, literal } => {
            match pane {
                Some(id) => {
                    let text = build_send_text(tokens.as_slice(), literal);
                    let args = typing_args(id, text.as_str());
                    turn_with(
                        Effect::Note(
                            Notice::Typing { target: target.to_owned(), pane: id, literal, text },
                        ),
                        Next::Run(args, OnRun::Finish),
                    )
                },
                None => give_up(Subcommand::SendKeys, target),
            }
        },
        Goal::Capture { print, start, end, escapes } => {
            match pane {
                Some(id) => {
                    let args = capture_args(id, &start, &end, escapes);
                    plain_turn(Next::Run(args, OnRun::Captured { print }))
                },
                None => give_up(Subcommand::CapturePane, target),
            }
        },
        Goal::Kill => {
            match pane {
                Some(id) => turn_with(
                    Effect::Note(Notice::KillPane { target: target.to_owned(), pane: id }),
                    Next::Run(pane_args("kill-pane", id), OnRun::Killed { pane: id }),
                ),
                None => give_up(Subcommand::KillPane, target),
            }
        },
        Goal::KillWindow { target: given, panes } => {
            let found: Option<WezPane> = match pane {
                Some(id) => find_pane(panes.as_slice(), id),
                None => None,
            };
            match found {
                Some(p) => begin_close_window(p.window_id, panes.as_slice()),
                None => give_up(Subcommand::KillWindow, given.as_str()),
            }
        },
    }
}

/// Turns to a target.
pub fn seek(
    target: String,
    goal: Goal<String, Vec<String>, Vec<WezPane>>,
    env: &Env,
    state: &mut State,
) -> (t: Turn)
    ensures
        t@ == seek_outcome(target@, goal@, env@, old(state)@).turn,
        final(state)@ == seek_outcome(target@, goal@, env@, old(state)@).state,
{
    if needs_panes(target.as_str()) {
        return plain_turn(Next::List(OnPanes::Target { target, goal }));
    }
    let none: Vec<WezPane> = Vec::new();
    let pane = resolve_target(target.as_str(), state, env, none.as_slice());
    assert(none@ =~= Seq::<WezPane>::empty());
    pursue(goal, target.as_str(), pane, state)
}

/// Turns to a target, or to the current pane if none is given.
pub fn seek_given(
    target: String,
    goal: Goal<String, Vec<String>, Vec<WezPane>>,
    env: &Env,
    state: &mut State,
) -> (t: Turn)
    ensures
        t@ == seek_or_current(target@, goal@, env@, old(state)@).turn,
        final(state)@ == seek_or_current(target@, goal@, env@, old(state)@).state,
{
    if target.as_str().is_empty() {
        let current = resolve_current_pane(state, env);
        seek(current, goal, env, state)
    } else {
        seek(target, goal, env, state)
    }
}

} // verus!
