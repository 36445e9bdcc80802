//! What each subcommand asks of WezTerm, shows and leaves behind.

use crate::args::{before_dashes, flag_at, is_given, is_value, value_for, value_or_empty};
use crate::commands::{accepted_names, dispatch_outcome, subcommand_named};
use crate::format::formatted;
use crate::goals::{
    close_next, goal_outcome, seek_or_current, seek_outcome, window_panes, Outcome,
};
use crate::keys::send_text;
use crate::launcher::script_text;
use crate::laws::targets::law_current_is_the_real_pane;
use crate::options::{
    capture_valued, env_words, is_server_option, keys_opts, list_opts, message_format, new_opts,
    option_words, respawn_opts, select_opts, split_opts, target_opt,
};
use crate::panes::{
    host_pane, is_name, pane_with_id, target_pane, target_state, window_text, EnvView, WezPane,
};
use crate::resume::{
    listed_lines, listed_state, pane_line, panes_outcome, run_outcome, window_filter,
};
use crate::state::StateView;
use crate::text::{decimal, joined, parsed_u64, replaced, trimmed};
use crate::turn::{
    EffectView, Goal, GoalView, Next, NextView, Notice, OnPanes, OnPanesView, OnRun, OnWrite,
    Subcommand, TurnView,
};
use vstd::prelude::*;

verus! {

/// A step that leaves `state`, has `effects` and goes on with `next`.
pub open spec fn step(state: StateView, effects: Seq<EffectView>, next: NextView) -> Outcome {
    Outcome { state, turn: TurnView { effects, next } }
}

/// A step that does nothing and ends with 0.
pub open spec fn nothing(state: StateView) -> Outcome {
    step(state, Seq::empty(), NextView::Exit(0))
}

/// A step that asks for the live panes.
pub open spec fn asks(state: StateView, task: OnPanesView) -> Outcome {
    step(state, Seq::empty(), NextView::List(task))
}

/// A step that shows a line, saves the state and ends with 0.
pub open spec fn shows_line(state: StateView, line: Seq<char>) -> Outcome {
    step(state, seq![EffectView::Line(line), EffectView::Save], NextView::Exit(0))
}

/// A step that logs that a target leads nowhere, and ends with 0.
pub open spec fn lost(state: StateView, command: Subcommand, target: Seq<char>) -> Outcome {
    step(
        state,
        seq![EffectView::Note(Notice::Unresolved { command, target })],
        NextView::Exit(0),
    )
}

// ----------------------------------------------------------- goals and targets

/// A split runs `split-pane` on the pane, or on pane 0 if the target leads
/// nowhere, and its direction is that of the last argument.
pub proof fn law_split_call(
    horizontal: bool,
    print: bool,
    format: Seq<char>,
    target: Seq<char>,
    pane: Option<u64>,
    s: StateView,
)
    ensures
        goal_outcome(Goal::Split { horizontal, print, format }, target, pane, s) == step(
            s,
            Seq::empty(),
            NextView::Run(
                seq![
                    "cli"@,
                    "split-pane"@,
                    "--pane-id"@,
                    decimal(if pane is Some { pane->0 as nat } else { 0 }),
                    if horizontal {
                        "--horizontal"@
                    } else {
                        "--bottom"@
                    },
                ],
                OnRun::Split { print, format },
            ),
        ),
{
    let outcome = goal_outcome(Goal::Split { horizontal, print, format }, target, pane, s);
    assert(outcome.turn.next->Run_0 =~= seq![
        "cli"@,
        "split-pane"@,
        "--pane-id"@,
        decimal(if pane is Some { pane->0 as nat } else { 0 }),
        if horizontal {
            "--horizontal"@
        } else {
            "--bottom"@
        },
    ]);
}

/// A policy is stored for the pane, and saved.
pub proof fn law_policy_goal(value: Seq<char>, target: Seq<char>, pane: u64, s: StateView)
    ensures
        goal_outcome(Goal::SetPolicy { value }, target, Some(pane), s) == step(
            s.with_policy(pane, value),
            seq![EffectView::Note(Notice::Policy { target, pane, value }), EffectView::Save],
            NextView::Exit(0),
        ),
        goal_outcome(Goal::SetPolicy { value }, target, None, s) == lost(
            s,
            Subcommand::SetOption,
            target,
        ),
{
}

/// A respawn writes the script of the pane, for the words of the command with
/// spaces between them. Without a command there is nothing to run.
pub proof fn law_respawn_goal(
    command: Seq<Seq<char>>,
    target: Seq<char>,
    pane: u64,
    s: StateView,
)
    ensures
        command.len() > 0 ==> goal_outcome(Goal::Respawn { command }, target, Some(pane), s)
            == step(
            s,
            Seq::empty(),
            NextView::Write {
                name: "respawn_"@ + decimal(pane as nat) + ".sh"@,
                content: script_text(s, pane, joined(command, " "@)),
                task: OnWrite::Script { pane },
            },
        ),
        command.len() == 0 ==> goal_outcome(Goal::Respawn { command }, target, Some(pane), s)
            == step(s, seq![EffectView::Note(Notice::NothingToRun)], NextView::Exit(0)),
        goal_outcome(Goal::Respawn { command }, target, None, s) == lost(
            s,
            Subcommand::RespawnPane,
            target,
        ),
{
}

/// Typing sends the text of the tokens to the pane, without pasting.
pub proof fn law_typing_goal(
    tokens: Seq<Seq<char>>,
    literal: bool,
    target: Seq<char>,
    pane: u64,
    s: StateView,
)
    ensures
        goal_outcome(Goal::Type { tokens, literal }, target, Some(pane), s) == step(
            s,
            seq![
                EffectView::Note(
                    Notice::Typing { target, pane, literal, text: send_text(tokens, literal) },
                ),
            ],
            NextView::Run(
                seq![
                    "cli"@,
                    "send-text"@,
                    "--pane-id"@,
                    decimal(pane as nat),
                    "--no-paste"@,
                    send_text(tokens, literal),
                ],
                OnRun::Finish,
            ),
        ),
        goal_outcome(Goal::Type { tokens, literal }, target, None, s) == lost(
            s,
            Subcommand::SendKeys,
            target,
        ),
{
    let outcome = goal_outcome(Goal::Type { tokens, literal }, target, Some(pane), s);
    assert(outcome.turn.next->Run_0 =~= seq![
        "cli"@,
        "send-text"@,
        "--pane-id"@,
        decimal(pane as nat),
        "--no-paste"@,
        send_text(tokens, literal),
    ]);
}

/// Without a line range, a capture runs `get-text` on the pane alone. Each of a
/// first line, a last line and escapes adds its own words at the end of what is
/// there without it, whatever the others are.
pub proof fn law_capture_call(
    print: bool,
    start: Option<Seq<char>>,
    end: Option<Seq<char>>,
    line: Seq<char>,
    escapes: bool,
    target: Seq<char>,
    pane: u64,
    s: StateView,
)
    ensures
        ({
            let call = |start: Option<Seq<char>>, end: Option<Seq<char>>, escapes: bool|
                goal_outcome(
                    Goal::Capture { print, start, end, escapes },
                    target,
                    Some(pane),
                    s,
                ).turn.next->Run_0;
            &&& call(None, None, false) == seq![
                "cli"@,
                "get-text"@,
                "--pane-id"@,
                decimal(pane as nat),
            ]
            &&& call(Some(line), None, false) == call(None, None, false) + seq![
                "--start-line"@,
                line,
            ]
            &&& call(start, Some(line), false) == call(start, None, false) + seq![
                "--end-line"@,
                line,
            ]
            &&& call(start, end, true) == call(start, end, false).push("--escapes"@)
        }),
        goal_outcome(Goal::Capture { print, start, end, escapes }, target, Some(pane), s) == step(
            s,
            Seq::empty(),
            NextView::Run(
                goal_outcome(
                    Goal::Capture { print, start, end, escapes },
                    target,
                    Some(pane),
                    s,
                ).turn.next->Run_0,
                OnRun::Captured { print },
            ),
        ),
        goal_outcome(Goal::Capture { print, start, end, escapes }, target, None, s) == lost(
            s,
            Subcommand::CapturePane,
            target,
        ),
{
    let call = |start: Option<Seq<char>>, end: Option<Seq<char>>, escapes: bool|
        goal_outcome(
            Goal::Capture { print, start, end, escapes },
            target,
            Some(pane),
            s,
        ).turn.next->Run_0;
    assert(call(None, None, false) =~= seq![
        "cli"@,
        "get-text"@,
        "--pane-id"@,
        decimal(pane as nat),
    ]);
    assert(call(Some(line), None, false) =~= call(None, None, false) + seq![
        "--start-line"@,
        line,
    ]);
    assert(call(start, Some(line), false) =~= call(start, None, false) + seq!["--end-line"@, line]);
    assert(call(start, end, true) =~= call(start, end, false).push("--escapes"@));
}

/// Closing a pane runs `kill-pane` on it.
pub proof fn law_kill_goal(target: Seq<char>, pane: u64, s: StateView)
    ensures
        goal_outcome(Goal::Kill, target, Some(pane), s) == step(
            s,
            seq![EffectView::Note(Notice::KillPane { target, pane })],
            NextView::Run(
                seq!["cli"@, "kill-pane"@, "--pane-id"@, decimal(pane as nat)],
                OnRun::Killed { pane },
            ),
        ),
        goal_outcome(Goal::Kill, target, None, s) == lost(s, Subcommand::KillPane, target),
{
}

/// Closing panes one by one runs `kill-pane` on the first and leaves the rest
/// for later; with none left, the state is saved.
pub proof fn law_closing_one_by_one(first: WezPane, rest: Seq<WezPane>)
    ensures
        close_next(Seq::empty()) == (seq![EffectView::Save], NextView::Exit(0)),
        close_next(seq![first] + rest) == (
            Seq::<EffectView>::empty(),
            NextView::Run(
                seq!["cli"@, "kill-pane"@, "--pane-id"@, decimal(first.pane_id as nat)],
                OnRun::KilledInWindow { pane: first.pane_id, rest },
            ),
        ),
{
    assert((seq![first] + rest).skip(1) =~= rest);
}

/// Closing the window of a pane closes the live panes of the window that the
/// pane was in.
pub proof fn law_kill_window_goal(
    given: Seq<char>,
    target: Seq<char>,
    pane: Option<u64>,
    panes: Seq<WezPane>,
    s: StateView,
)
    ensures
        ({
            let found = match pane {
                Some(id) => pane_with_id(panes, id),
                None => None,
            };
            goal_outcome(Goal::KillWindow { target: given, panes }, target, pane, s) == (
            match found {
                Some(p) => closes(s, p.window_id, panes),
                None => lost(s, Subcommand::KillWindow, given),
            })
        }),
{
}

/// A step that begins to close the live panes of a window.
pub open spec fn closes(state: StateView, window: u64, panes: Seq<WezPane>) -> Outcome {
    let of_window = panes.filter(|p: WezPane| p.window_id == window);
    step(
        state,
        seq![EffectView::Note(Notice::KillWindow { window })] + close_next(of_window).0,
        close_next(of_window).1,
    )
}

/// A target that is not a name is gone for at once. A name waits for the live
/// panes, with nothing done before.
pub proof fn law_seeking(
    target: Seq<char>,
    goal: GoalView,
    env: EnvView,
    s: StateView,
    panes: Seq<WezPane>,
)
    ensures
        !is_name(target) ==> seek_outcome(target, goal, env, s) == goal_outcome(
            goal,
            target,
            target_pane(target, env, s, panes),
            s,
        ),
        is_name(target) ==> seek_outcome(target, goal, env, s) == asks(
            s,
            OnPanes::Target { target, goal },
        ),
        panes_outcome(OnPanes::Target { target, goal }, panes, env, s) == goal_outcome(
            goal,
            target,
            target_pane(target, env, s, panes),
            target_state(target, env, s),
        ),
        target.len() == 0 ==> seek_or_current(target, goal, env, s) == seek_outcome(
            env.current_id(s),
            goal,
            env,
            env.current_state(s),
        ),
        target.len() > 0 ==> seek_or_current(target, goal, env, s) == seek_outcome(
            target,
            goal,
            env,
            s,
        ),
{
}

// ----------------------------------------------------------------- subcommands

/// Each subcommand is known by its name, and no other name is known.
pub proof fn law_names_of_subcommands(name: Seq<char>)
    ensures
        subcommand_named("has-session"@) == Subcommand::HasSession,
        subcommand_named("new-session"@) == Subcommand::NewSession,
        subcommand_named("new-window"@) == Subcommand::NewWindow,
        subcommand_named("split-window"@) == Subcommand::SplitWindow,
        subcommand_named("list-panes"@) == Subcommand::ListPanes,
        subcommand_named("display-message"@) == Subcommand::DisplayMessage,
        subcommand_named("select-pane"@) == Subcommand::SelectPane,
        subcommand_named("set-option"@) == Subcommand::SetOption,
        subcommand_named("resize-pane"@) == Subcommand::ResizePane,
        subcommand_named("respawn-pane"@) == Subcommand::RespawnPane,
        subcommand_named("set-environment"@) == Subcommand::SetEnvironment,
        subcommand_named("set"@) == Subcommand::SetEnvironment,
        subcommand_named("show-environment"@) == Subcommand::ShowEnvironment,
        subcommand_named("break-pane"@) == Subcommand::BreakPane,
        subcommand_named("kill-pane"@) == Subcommand::KillPane,
        subcommand_named("kill-window"@) == Subcommand::KillWindow,
        subcommand_named("send-keys"@) == Subcommand::SendKeys,
        subcommand_named("capture-pane"@) == Subcommand::CapturePane,
        subcommand_named("select-layout"@) == Subcommand::Accepted,
        subcommand_named("refresh-client"@) == Subcommand::Accepted,
        subcommand_named("set-window-option"@) == Subcommand::Accepted,
        subcommand_named("setw"@) == Subcommand::Accepted,
        subcommand_named("rename-window"@) == Subcommand::Accepted,
        subcommand_named("rename-session"@) == Subcommand::Accepted,
        subcommand_named("move-window"@) == Subcommand::Accepted,
        subcommand_named("swap-pane"@) == Subcommand::Accepted,
        name != "has-session"@ && name != "new-session"@ && name != "new-window"@ && name != "split-window"@ && name != "list-panes"@ && name != "display-message"@ && name != "select-pane"@ && name != "set-option"@ && name != "resize-pane"@ && name != "respawn-pane"@ && name != "set-environment"@ && name != "set"@ && name != "show-environment"@ && name != "break-pane"@ && name != "kill-pane"@ && name != "kill-window"@ && name != "send-keys"@ && name != "capture-pane"@ && name != "select-layout"@ && name != "refresh-client"@ && name != "set-window-option"@ && name != "setw"@ && name != "rename-window"@ && name != "rename-session"@ && name != "move-window"@ && name != "swap-pane"@
            ==> subcommand_named(name) == Subcommand::Unknown,
{
    reveal_strlit("has-session");
    reveal_strlit("new-session");
    reveal_strlit("new-window");
    reveal_strlit("split-window");
    reveal_strlit("list-panes");
    reveal_strlit("display-message");
    reveal_strlit("select-pane");
    reveal_strlit("set-option");
    reveal_strlit("resize-pane");
    reveal_strlit("respawn-pane");
    reveal_strlit("set-environment");
    reveal_strlit("set");
    reveal_strlit("show-environment");
    reveal_strlit("break-pane");
    reveal_strlit("kill-pane");
    reveal_strlit("kill-window");
    reveal_strlit("send-keys");
    reveal_strlit("capture-pane");
    reveal_strlit("select-layout");
    reveal_strlit("refresh-client");
    reveal_strlit("set-window-option");
    reveal_strlit("setw");
    reveal_strlit("rename-window");
    reveal_strlit("rename-session");
    reveal_strlit("move-window");
    reveal_strlit("swap-pane");
    assert("has-session"@.len() == 11);
    assert("new-session"@.len() == 11);
    assert("new-window"@.len() == 10);
    assert("split-window"@.len() == 12);
    assert("list-panes"@.len() == 10);
    assert("display-message"@.len() == 15);
    assert("select-pane"@.len() == 11);
    assert("set-option"@.len() == 10);
    assert("resize-pane"@.len() == 11);
    assert("respawn-pane"@.len() == 12);
    assert("set-environment"@.len() == 15);
    assert("set"@.len() == 3);
    assert("show-environment"@.len() == 16);
    assert("break-pane"@.len() == 10);
    assert("kill-pane"@.len() == 9);
    assert("kill-window"@.len() == 11);
    assert("send-keys"@.len() == 9);
    assert("capture-pane"@.len() == 12);
    assert("select-layout"@.len() == 13);
    assert("refresh-client"@.len() == 14);
    assert("set-window-option"@.len() == 17);
    assert("setw"@.len() == 4);
    assert("rename-window"@.len() == 13);
    assert("rename-session"@.len() == 14);
    assert("move-window"@.len() == 11);
    assert("swap-pane"@.len() == 9);
    assert("has-session"@[0] != "new-session"@[0]);
    assert("has-session"@[0] != "select-pane"@[0]);
    assert("has-session"@[0] != "resize-pane"@[0]);
    assert("has-session"@[0] != "kill-window"@[0]);
    assert("has-session"@[0] != "move-window"@[0]);
    assert("new-session"@[0] != "select-pane"@[0]);
    assert("new-session"@[0] != "resize-pane"@[0]);
    assert("new-session"@[0] != "kill-window"@[0]);
    assert("new-session"@[0] != "move-window"@[0]);
    assert("new-window"@[0] != "list-panes"@[0]);
    assert("new-window"@[0] != "set-option"@[0]);
    assert("new-window"@[0] != "break-pane"@[0]);
    assert("split-window"@[0] != "respawn-pane"@[0]);
    assert("split-window"@[0] != "capture-pane"@[0]);
    assert("list-panes"@[0] != "set-option"@[0]);
    assert("list-panes"@[0] != "break-pane"@[0]);
    assert("display-message"@[0] != "set-environment"@[0]);
    assert("select-pane"@[0] != "resize-pane"@[0]);
    assert("select-pane"@[0] != "kill-window"@[0]);
    assert("select-pane"@[0] != "move-window"@[0]);
    assert("set-option"@[0] != "break-pane"@[0]);
    assert("resize-pane"@[0] != "kill-window"@[0]);
    assert("resize-pane"@[0] != "move-window"@[0]);
    assert("respawn-pane"@[0] != "capture-pane"@[0]);
    assert("kill-pane"@[0] != "send-keys"@[0]);
    assert("kill-pane"@[0] != "swap-pane"@[0]);
    assert("kill-window"@[0] != "move-window"@[0]);
    assert("send-keys"@[1] != "swap-pane"@[1]);
    assert("select-layout"@[0] != "rename-window"@[0]);
    assert("refresh-client"@[2] != "rename-session"@[2]);
    assert(accepted_names()[0] == "select-layout"@);
    assert(accepted_names()[1] == "refresh-client"@);
    assert(accepted_names()[2] == "set-window-option"@);
    assert(accepted_names()[3] == "setw"@);
    assert(accepted_names()[4] == "rename-window"@);
    assert(accepted_names()[5] == "rename-session"@);
    assert(accepted_names()[6] == "move-window"@);
    assert(accepted_names()[7] == "swap-pane"@);
}

/// A name that is not known does nothing but leave a line in the log and a hint
/// for the user. One that is accepted as it is leaves a line in the log.
pub proof fn law_other_subcommands(
    name: Seq<char>,
    words: Seq<Seq<char>>,
    env: EnvView,
    s: StateView,
)
    ensures
        subcommand_named(name) == Subcommand::Unknown ==> dispatch_outcome(name, words, env, s)
            == step(
            s,
            seq![
                EffectView::Note(Notice::Unhandled { subcommand: name, args: words }),
                EffectView::Warn(
                    "tmux-wezterm-shim: unhandled subcommand '"@ + name
                        + "' (not implemented - see shim.log)"@,
                ),
            ],
            NextView::Exit(0),
        ),
        subcommand_named(name) == Subcommand::Accepted ==> dispatch_outcome(name, words, env, s)
            == step(s, seq![EffectView::Note(Notice::NoOp { subcommand: name })], NextView::Exit(0)),
{
}

/// `has-session`, `resize-pane` and `break-pane` do nothing.
pub proof fn law_idle_subcommands(words: Seq<Seq<char>>, env: EnvView, s: StateView)
    ensures
        dispatch_outcome("has-session"@, words, env, s) == nothing(s),
        dispatch_outcome("resize-pane"@, words, env, s) == nothing(s),
        dispatch_outcome("break-pane"@, words, env, s) == nothing(s),
{
    law_names_of_subcommands(Seq::empty());
}

/// `new-session` and `new-window` ask for the live panes where a pane is to be
/// shown, and do nothing otherwise.
pub proof fn law_new_subcommands(words: Seq<Seq<char>>, env: EnvView, s: StateView)
    ensures
        dispatch_outcome("new-session"@, words, env, s) == (if new_opts(words).print {
            asks(s, OnPanes::NewPane { format: new_opts(words).format })
        } else {
            nothing(s)
        }),
        dispatch_outcome("new-window"@, words, env, s) == dispatch_outcome(
            "new-session"@,
            words,
            env,
            s,
        ),
{
    law_names_of_subcommands(Seq::empty());
}

/// `split-window` goes for a split of its target.
pub proof fn law_split_subcommand(words: Seq<Seq<char>>, env: EnvView, s: StateView)
    ensures
        dispatch_outcome("split-window"@, words, env, s) == seek_outcome(
            split_opts(words).target,
            Goal::Split {
                horizontal: split_opts(words).horizontal,
                print: split_opts(words).print,
                format: split_opts(words).format,
            },
            env,
            s,
        ),
{
    law_names_of_subcommands(Seq::empty());
}

/// The call that a `split-window` makes, once the live panes are known where it
/// has to ask for them.
pub open spec fn split_run(
    words: Seq<Seq<char>>,
    env: EnvView,
    s: StateView,
    panes: Seq<WezPane>,
) -> NextView {
    let first = dispatch_outcome("split-window"@, words, env, s);
    match first.turn.next {
        Next::List(task) => panes_outcome(task, panes, env, first.state).turn.next,
        next => next,
    }
}

/// `split-window` splits side by side where `-h` stands among its options, not
/// as the value of one, with no `-v` after it. Every other command line splits
/// one above the other. No other word matters.
pub proof fn law_split_direction(
    words: Seq<Seq<char>>,
    env: EnvView,
    s: StateView,
    panes: Seq<WezPane>,
)
    ensures
        split_run(words, env, s, panes) is Run,
        split_run(words, env, s, panes)->Run_0.len() == 5,
        split_run(words, env, s, panes)->Run_0[1] == "split-pane"@,
        ({
            let valued = seq!["-t"@, "-F"@];
            let options = before_dashes(words, valued);
            let side_by_side = exists|i: int|
                0 <= i < options.len() && #[trigger] options[i] == "-h"@ && !is_value(
                    options,
                    valued,
                    i,
                ) && forall|j: int|
                    i < j < options.len() && #[trigger] options[j] == "-v"@ ==> is_value(
                        options,
                        valued,
                        j,
                    );
            split_run(words, env, s, panes)->Run_0[4] == if side_by_side {
                "--horizontal"@
            } else {
                "--bottom"@
            }
        }),
{
    let valued = seq!["-t"@, "-F"@];
    let options = before_dashes(words, valued);
    let opts = split_opts(words);
    law_split_subcommand(words, env, s);
    let goal = Goal::Split {
        horizontal: opts.horizontal,
        print: opts.print,
        format: opts.format,
    };
    law_seeking(opts.target, goal, env, s, panes);
    law_split_call(
        opts.horizontal,
        opts.print,
        opts.format,
        opts.target,
        target_pane(opts.target, env, s, panes),
        s,
    );
    law_split_call(
        opts.horizontal,
        opts.print,
        opts.format,
        opts.target,
        target_pane(opts.target, env, s, panes),
        target_state(opts.target, env, s),
    );
    let side_by_side = exists|i: int|
        0 <= i < options.len() && #[trigger] options[i] == "-h"@ && !is_value(options, valued, i)
            && forall|j: int|
            i < j < options.len() && #[trigger] options[j] == "-v"@ ==> is_value(
                options,
                valued,
                j,
            );
    if opts.horizontal {
        let i = choose|i: int| #[trigger]
            flag_at(options, valued, "-h"@, i) && forall|j: int|
                i < j ==> !#[trigger] flag_at(options, valued, "-v"@, j);
        assert(options[i] == "-h"@);
        assert forall|j: int| i < j < options.len() && #[trigger] options[j] == "-v"@ implies
            is_value(options, valued, j) by {
            assert(!flag_at(options, valued, "-v"@, j));
        }
    }
    if side_by_side {
        let i = choose|i: int|
            0 <= i < options.len() && #[trigger] options[i] == "-h"@ && !is_value(
                options,
                valued,
                i,
            ) && forall|j: int|
                i < j < options.len() && #[trigger] options[j] == "-v"@ ==> is_value(
                    options,
                    valued,
                    j,
                );
        assert(flag_at(options, valued, "-h"@, i));
        assert forall|j: int| i < j implies !#[trigger] flag_at(options, valued, "-v"@, j) by {
            if 0 <= j < options.len() {
                assert(options[j] == "-v"@ ==> is_value(options, valued, j));
            }
        }
    }
}

/// `list-panes` asks for the live panes.
pub proof fn law_list_subcommand(words: Seq<Seq<char>>, env: EnvView, s: StateView)
    ensures
        dispatch_outcome("list-panes"@, words, env, s) == asks(
            s,
            OnPanes::Listing { target: list_opts(words).target, format: list_opts(words).format },
        ),
{
    law_names_of_subcommands(Seq::empty());
}

/// `display-message` with a format to print asks for the live panes, and knows
/// the current pane then. Without one it does nothing.
pub proof fn law_message_subcommand(words: Seq<Seq<char>>, env: EnvView, s: StateView)
    ensures
        ({
            let format = message_format(words, words.len() as int);
            dispatch_outcome("display-message"@, words, env, s) == if format.len() > 0 {
                asks(
                    env.current_state(s),
                    OnPanes::Message { current: env.current_id(s), format },
                )
            } else {
                nothing(s)
            }
        }),
{
    law_names_of_subcommands(Seq::empty());
}

/// What `display-message` prints is its format, filled in with the tmux id of
/// the current pane. In the state left behind, and saved, that id leads to the
/// pane that `WEZTERM_PANE` names.
pub proof fn law_message_shows_the_current_pane(
    words: Seq<Seq<char>>,
    env: EnvView,
    s: StateView,
    panes: Seq<WezPane>,
)
    requires
        message_format(words, words.len() as int).len() > 0,
    ensures
        ({
            let format = message_format(words, words.len() as int);
            let first = dispatch_outcome("display-message"@, words, env, s);
            let last = panes_outcome(first.turn.next->List_0, panes, env, first.state);
            &&& first.turn.next is List
            &&& last.turn.next == NextView::Exit(0)
            &&& last.turn.effects.len() == 2
            &&& last.turn.effects[1] == EffectView::Save
            &&& exists|window: Seq<char>|
                last.turn.effects[0] == EffectView::Line(
                    #[trigger] formatted(format, Some(env.current_id(s)), Some(window)),
                )
            &&& last.state == env.current_state(s)
            &&& forall|w: u64|
                env.real_pane() == Some(w) && (env.claimed_id() is Some || s.reachable(w))
                    ==> #[trigger] names_pane(last.state, env.current_id(s), w)
        }),
{
    let format = message_format(words, words.len() as int);
    law_message_subcommand(words, env, s);
    let first = dispatch_outcome("display-message"@, words, env, s);
    law_message_line(env.current_id(s), format, panes, env, first.state);
    let last = panes_outcome(first.turn.next->List_0, panes, env, first.state);
    let window = match host_pane(env, panes) {
        Some(p) => window_text(Some(p)),
        None => if panes.len() > 0 {
            window_text(Some(panes[0]))
        } else {
            window_text(None)
        },
    };
    assert(last.turn.effects[0] == EffectView::Line(
        formatted(format, Some(env.current_id(s)), Some(window)),
    ));
    assert forall|w: u64|
        env.real_pane() == Some(w) && (env.claimed_id() is Some || s.reachable(w)) implies
        #[trigger] names_pane(last.state, env.current_id(s), w) by {
        law_current_is_the_real_pane(env, s, w);
    }
}

/// Whether an id leads to a pane and is the id of that pane.
pub open spec fn names_pane(s: StateView, id: Seq<char>, w: u64) -> bool {
    s.tmux_to_wez.contains_key(id) && s.tmux_to_wez[id] == w && s.wez_to_tmux.contains_key(w)
        && s.wez_to_tmux[w] == id
}

/// `select-pane` sets the tab title where a title is given.
pub proof fn law_select_subcommand(words: Seq<Seq<char>>, env: EnvView, s: StateView)
    ensures
        ({
            let target = select_opts(words).target;
            let title = select_opts(words).title;
            dispatch_outcome("select-pane"@, words, env, s) == if title.len() > 0 {
                step(
                    s,
                    seq![EffectView::Note(Notice::SetTitle { target, title })],
                    NextView::Run(seq!["cli"@, "set-tab-title"@, title], OnRun::Finish),
                )
            } else {
                nothing(s)
            }
        }),
{
    law_names_of_subcommands(Seq::empty());
}

/// `set-option` goes for the policy of its target where `remain-on-exit` is the
/// option, with `on` for want of a value. Any other option does nothing.
pub proof fn law_option_subcommand(words: Seq<Seq<char>>, env: EnvView, s: StateView)
    ensures
        ({
            let given = option_words(words);
            let outcome = dispatch_outcome("set-option"@, words, env, s);
            if given.len() == 0 || given[0] != "remain-on-exit"@ {
                outcome == nothing(s)
            } else if given.len() == 1 {
                outcome == seek_outcome(
                    target_opt(words),
                    Goal::SetPolicy { value: "on"@ },
                    env,
                    s,
                )
            } else {
                outcome == seek_outcome(
                    target_opt(words),
                    Goal::SetPolicy { value: given[1] },
                    env,
                    s,
                )
            }
        }),
{
    law_names_of_subcommands(Seq::empty());
}

/// `respawn-pane` goes for a start of its command in its target.
pub proof fn law_respawn_subcommand(words: Seq<Seq<char>>, env: EnvView, s: StateView)
    ensures
        dispatch_outcome("respawn-pane"@, words, env, s) == seek_outcome(
            respawn_opts(words).target,
            Goal::Respawn { command: respawn_opts(words).command },
            env,
            s,
        ),
{
    law_names_of_subcommands(Seq::empty());
}

/// `send-keys` goes for typing its tokens into its target or the current pane.
pub proof fn law_keys_subcommand(words: Seq<Seq<char>>, env: EnvView, s: StateView)
    ensures
        dispatch_outcome("send-keys"@, words, env, s) == seek_or_current(
            keys_opts(words).target,
            Goal::Type { tokens: keys_opts(words).tokens, literal: keys_opts(words).literal },
            env,
            s,
        ),
{
    law_names_of_subcommands(Seq::empty());
}

/// `capture-pane` goes for the text of its target or the current pane, from the
/// value of `-S` to that of `-E`, printed with `-p` and with escapes with `-e`.
pub proof fn law_capture_subcommand(words: Seq<Seq<char>>, env: EnvView, s: StateView)
    ensures
        dispatch_outcome("capture-pane"@, words, env, s) == seek_or_current(
            value_or_empty(words, capture_valued(), "-t"@),
            Goal::Capture {
                print: is_given(words, capture_valued(), "-p"@),
                start: value_for(words, capture_valued(), "-S"@),
                end: value_for(words, capture_valued(), "-E"@),
                escapes: is_given(words, capture_valued(), "-e"@),
            },
            env,
            s,
        ),
{
    law_names_of_subcommands(Seq::empty());
}

/// `set-environment` stores and saves a variable, `show-environment` shows one
/// or ends with 1. Without enough words they do nothing.
pub proof fn law_variable_subcommands(words: Seq<Seq<char>>, env: EnvView, s: StateView)
    ensures
        ({
            let given = env_words(words);
            let set = dispatch_outcome("set-environment"@, words, env, s);
            let show = dispatch_outcome("show-environment"@, words, env, s);
            &&& given.len() < 2 ==> set == nothing(s)
            &&& given.len() >= 2 ==> set == step(
                s.with_env(given[0], given[1]),
                seq![
                    EffectView::Note(Notice::SetVariable { name: given[0], value: given[1] }),
                    EffectView::Save,
                ],
                NextView::Exit(0),
            )
            &&& given.len() == 0 ==> show == nothing(s)
            &&& given.len() > 0 && s.env_vars.contains_key(given[0]) ==> show == step(
                s,
                seq![EffectView::Line(given[0] + "="@ + s.env_vars[given[0]])],
                NextView::Exit(0),
            )
            &&& given.len() > 0 && !s.env_vars.contains_key(given[0]) ==> show == step(
                s,
                Seq::empty(),
                NextView::Exit(1),
            )
        }),
        dispatch_outcome("set"@, words, env, s) == (if is_server_option(words) {
            nothing(s)
        } else {
            dispatch_outcome("set-environment"@, words, env, s)
        }),
{
    law_names_of_subcommands(Seq::empty());
    reveal_strlit("=");
    assert("="@ =~= seq!['=']);
    reveal_strlit("set");
    reveal_strlit("set-environment");
    assert("set"@.len() != "set-environment"@.len());
}

/// `kill-pane` goes for closing its target or the current pane. `kill-window`
/// asks for the live panes first.
pub proof fn law_kill_subcommands(words: Seq<Seq<char>>, env: EnvView, s: StateView)
    ensures
        dispatch_outcome("kill-pane"@, words, env, s) == seek_or_current(
            target_opt(words),
            Goal::Kill,
            env,
            s,
        ),
        dispatch_outcome("kill-window"@, words, env, s) == asks(
            s,
            OnPanes::Window { target: target_opt(words) },
        ),
{
    law_names_of_subcommands(Seq::empty());
}

// ------------------------------------------------------------------ live panes

/// The pane that `new-session` and `new-window` show is the first live one, or
/// pane 0 in window 0 if there is none.
pub proof fn law_new_pane_line(
    format: Seq<char>,
    panes: Seq<WezPane>,
    env: EnvView,
    s: StateView,
)
    ensures
        panes_outcome(OnPanes::NewPane { format }, panes, env, s) == (if panes.len() > 0 {
            shows_line(
                s.with_id_for(panes[0].pane_id),
                formatted(
                    format,
                    Some(s.id_of(panes[0].pane_id)),
                    Some(window_text(Some(panes[0]))),
                ),
            )
        } else {
            shows_line(
                s.with_id_for(0),
                formatted(format, Some(s.id_of(0)), Some(window_text(None))),
            )
        }),
{
}

/// A new pane is shown with the id it got and the window of the first live pane.
pub proof fn law_split_line(
    tmux_id: Seq<char>,
    format: Seq<char>,
    panes: Seq<WezPane>,
    env: EnvView,
    s: StateView,
)
    ensures
        panes_outcome(OnPanes::SplitShown { tmux_id, format }, panes, env, s) == shows_line(
            s,
            formatted(
                format,
                Some(tmux_id),
                Some(
                    window_text(
                        if panes.len() > 0 {
                            Some(panes[0])
                        } else {
                            None
                        },
                    ),
                ),
            ),
        ),
{
}

/// A message is shown with the window of the pane that `WEZTERM_PANE` names, if
/// it is live, and that of the first live pane otherwise.
pub proof fn law_message_line(
    current: Seq<char>,
    format: Seq<char>,
    panes: Seq<WezPane>,
    env: EnvView,
    s: StateView,
)
    ensures
        panes_outcome(OnPanes::Message { current, format }, panes, env, s) == shows_line(
            s,
            formatted(
                format,
                Some(current),
                Some(
                    match host_pane(env, panes) {
                        Some(p) => window_text(Some(p)),
                        None => if panes.len() > 0 {
                            window_text(Some(panes[0]))
                        } else {
                            window_text(None)
                        },
                    },
                ),
            ),
        ),
{
}

/// A target names a window where it is an at sign and a number.
pub proof fn law_windows_by_number(target: Seq<char>)
    ensures
        window_filter(target) == (if target.len() > 0 && target[0] == '@' {
            parsed_u64(target.skip(1))
        } else {
            None
        }),
{
    if target.len() > 0 && target[0] == '@' {
        assert(target.subrange(0, 1) =~= seq!['@']);
        assert(seq!['@'].is_prefix_of(target));
    } else if seq!['@'].is_prefix_of(target) {
        assert(target.subrange(0, 1)[0] == '@');
    }
}

/// A listing shows one line for each of `shown`, in order, marks the pane that
/// `WEZTERM_PANE` names, saves the ids it gave out and ends with 0.
pub open spec fn lists_panes(
    outcome: Outcome,
    format: Seq<char>,
    shown: Seq<WezPane>,
    env: EnvView,
    s: StateView,
) -> bool {
    let now = env.current_state(s);
    &&& outcome.state == listed_state(now, shown)
    &&& outcome.turn.next == NextView::Exit(0)
    &&& outcome.turn.effects.len() == shown.len() + 1
    &&& outcome.turn.effects.last() == EffectView::Save
    &&& forall|i: int|
        0 <= i < shown.len() ==> #[trigger] outcome.turn.effects[i] == EffectView::Line(
            pane_line(
                format,
                listed_state(now, shown.take(i)).id_of(shown[i].pane_id),
                shown[i],
                env.real_pane() == Some(shown[i].pane_id),
            ),
        )
}

/// A listing whose target is not an at sign and a number, such as a name or a
/// pane id, shows every live pane. One whose target is shows the live panes of
/// that window.
pub proof fn law_listing(
    target: Seq<char>,
    format: Seq<char>,
    panes: Seq<WezPane>,
    env: EnvView,
    s: StateView,
    window: u64,
)
    ensures
        ({
            let outcome = panes_outcome(OnPanes::Listing { target, format }, panes, env, s);
            &&& (target.len() == 0 || target[0] != '@' || parsed_u64(target.skip(1)) is None)
                ==> lists_panes(outcome, format, panes, env, s)
            &&& target.len() > 0 && target[0] == '@' && parsed_u64(target.skip(1)) == Some(window)
                ==> lists_panes(
                outcome,
                format,
                panes.filter(|p: WezPane| p.window_id == window),
                env,
                s,
            )
        }),
{
    law_windows_by_number(target);
    let now = env.current_state(s);
    let of_window = panes.filter(|p: WezPane| p.window_id == window);
    lemma_listed_lines(now, format, env.real_pane(), panes);
    lemma_listed_lines(now, format, env.real_pane(), of_window);
    assert(window_panes(panes, window) == of_window);
}

proof fn lemma_listed_lines(
    s: StateView,
    format: Seq<char>,
    current: Option<u64>,
    panes: Seq<WezPane>,
)
    ensures
        listed_lines(s, format, current, panes).len() == panes.len(),
        forall|i: int|
            0 <= i < panes.len() ==> #[trigger] listed_lines(s, format, current, panes)[i]
                == EffectView::Line(
                pane_line(
                    format,
                    listed_state(s, panes.take(i)).id_of(panes[i].pane_id),
                    panes[i],
                    current == Some(panes[i].pane_id),
                ),
            ),
    decreases panes.len(),
{
    if panes.len() > 0 {
        let init = panes.drop_last();
        lemma_listed_lines(s, format, current, init);
        assert forall|i: int| 0 <= i < panes.len() implies #[trigger] listed_lines(
            s,
            format,
            current,
            panes,
        )[i] == EffectView::Line(
            pane_line(
                format,
                listed_state(s, panes.take(i)).id_of(panes[i].pane_id),
                panes[i],
                current == Some(panes[i].pane_id),
            ),
        ) by {
            if i < init.len() {
                assert(init.take(i) =~= panes.take(i));
                assert(listed_lines(s, format, current, init)[i] == listed_lines(
                    s,
                    format,
                    current,
                    panes,
                )[i]);
            } else {
                assert(panes.take(i) =~= init);
            }
        }
    }
}

/// A listing gives ids to the panes in the order in which it shows them.
pub proof fn law_listing_gives_ids_in_order(s: StateView, panes: Seq<WezPane>, pane: WezPane)
    ensures
        listed_state(s, Seq::empty()) == s,
        listed_state(s, panes.push(pane)) == listed_state(s, panes).with_id_for(pane.pane_id),
{
    assert(panes.push(pane).drop_last() =~= panes);
}

/// The line of a pane is the format filled in with its id and its window, and
/// with 1 for the marks of the current pane and 0 for those of any other.
pub proof fn law_lines_of_panes(format: Seq<char>, id: Seq<char>, pane: WezPane)
    ensures
        ({
            let line = formatted(format, Some(id), Some("@"@ + decimal(pane.window_id as nat)));
            &&& pane_line(format, id, pane, true) == replaced(
                replaced(line, "#{pane_active}"@, "1"@),
                "#{pane_current}"@,
                "1"@,
            )
            &&& pane_line(format, id, pane, false) == replaced(
                replaced(line, "#{pane_active}"@, "0"@),
                "#{pane_current}"@,
                "0"@,
            )
        }),
{
    crate::laws::targets::law_windows_are_numbers(pane);
}

/// `kill-window` takes a target that begins with an at sign for a window, and
/// gives up where no number follows. Any other target stands for a pane.
pub proof fn law_window_to_close(
    target: Seq<char>,
    panes: Seq<WezPane>,
    env: EnvView,
    s: StateView,
)
    ensures
        panes_outcome(OnPanes::Window { target }, panes, env, s) == (if target.len() > 0
            && target[0] == '@' {
            match parsed_u64(target.skip(1)) {
                Some(window) => closes(s, window, panes),
                None => lost(s, Subcommand::KillWindow, target),
            }
        } else {
            seek_or_current(target, Goal::KillWindow { target, panes }, env, s)
        }),
{
    law_windows_by_number(target);
    if target.len() > 0 && target[0] == '@' {
        assert(target.subrange(0, 1) =~= seq!['@']);
        assert(seq!['@'].is_prefix_of(target));
    } else if seq!['@'].is_prefix_of(target) {
        assert(target.subrange(0, 1)[0] == '@');
    }
}

// --------------------------------------------------------------- WezTerm calls

/// The pane that a split made gets an id; where WezTerm printed no number, an id
/// is used up for it. A pane to be shown waits for the live panes, otherwise the
/// state is saved. Failures leave a line in the log and change nothing else.
pub proof fn law_after_a_split(
    print: bool,
    format: Seq<char>,
    stdout: Seq<char>,
    exit: i32,
    s: StateView,
)
    ensures
        ({
            let outcome = run_outcome(OnRun::Split { print, format }, stdout, exit, s);
            let made = parsed_u64(trimmed(stdout));
            let id = match made {
                Some(w) => s.id_of(w),
                None => "%"@ + decimal(s.next_pane as nat),
            };
            let failed = if exit != 0 {
                seq![EffectView::Note(Notice::SplitFailed { exit })]
            } else {
                Seq::empty()
            };
            let unread = if made is None {
                seq![EffectView::Note(Notice::SyntheticId)]
            } else {
                Seq::empty()
            };
            &&& outcome.state == match made {
                Some(w) => s.with_id_for(w),
                None => s.advance(),
            }
            &&& print ==> outcome.turn.next == NextView::List(
                OnPanes::SplitShown { tmux_id: id, format },
            ) && outcome.turn.effects == failed + unread
            &&& !print ==> outcome.turn.next == NextView::Exit(0) && outcome.turn.effects == failed
                + unread + seq![EffectView::Save]
        }),
{
    crate::laws::pairing::law_ids_are_numbers(s.next_pane);
    let outcome = run_outcome(OnRun::Split { print, format }, stdout, exit, s);
    let failed = if exit != 0 {
        seq![EffectView::Note(Notice::SplitFailed { exit })]
    } else {
        Seq::empty()
    };
    let unread = if parsed_u64(trimmed(stdout)) is None {
        seq![EffectView::Note(Notice::SyntheticId)]
    } else {
        Seq::empty()
    };
    if !print {
        assert(outcome.turn.effects =~= failed + unread + seq![EffectView::Save]);
    }
}

/// After typing or setting a title there is nothing more to do. Captured text is
/// printed as it is, or else goes nowhere.
pub proof fn law_after_other_calls(stdout: Seq<char>, exit: i32, s: StateView)
    ensures
        run_outcome(OnRun::Finish, stdout, exit, s) == nothing(s),
        run_outcome(OnRun::Captured { print: true }, stdout, exit, s) == step(
            s,
            seq![EffectView::Print(stdout)],
            NextView::Exit(0),
        ),
        run_outcome(OnRun::Captured { print: false }, stdout, exit, s) == step(
            s,
            seq![EffectView::Note(Notice::NotPrinted)],
            NextView::Exit(0),
        ),
{
}

/// A pane that was to be closed is forgotten, whatever WezTerm answered; so is
/// one of a window, and then the next one has its turn.
pub proof fn law_after_a_kill(
    pane: u64,
    rest: Seq<WezPane>,
    stdout: Seq<char>,
    exit: i32,
    s: StateView,
)
    ensures
        run_outcome(OnRun::Killed { pane }, stdout, exit, s) == step(
            s.forget(pane),
            seq![EffectView::Note(Notice::KillPaneExit { exit }), EffectView::Save],
            NextView::Exit(0),
        ),
        run_outcome(OnRun::KilledInWindow { pane, rest }, stdout, exit, s) == step(
            s.forget(pane),
            seq![EffectView::Note(Notice::KilledInWindow { pane, exit })] + close_next(rest).0,
            close_next(rest).1,
        ),
{
}

} // verus!
