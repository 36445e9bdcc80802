//! The first turn of each subcommand, and the choice of subcommand.

use crate::args::{is_given, one_of, value_for, value_or_empty, words_of};
use crate::goals::{goes_on, seek, seek_given, seek_or_current, seek_outcome, Outcome};
use crate::options::{
    capture_valued, env_words, is_server_option, keys_opts, list_opts, message_format,
    names_server_option, new_opts, option_words, parse_capture_pane_args, parse_env_words,
    parse_keys_args, parse_list_args, parse_message_args, parse_new_args, parse_option_words, parse_respawn_args, parse_select_args, parse_split_args,
    parse_target, respawn_opts, select_opts, split_opts, target_opt,
};
use crate::panes::{resolve_current_pane, Env, EnvView};
use crate::state::{State, StateView};
use crate::text::{same, texts};
use crate::turn::{
    exit_now, plain_turn, turn_with, turn_with_two, Effect, Goal, Next, Notice, OnPanes, OnRun,
    Subcommand, Turn,
};
use vstd::prelude::*;

verus! {

/// A step that ends the command without doing anything.
pub open spec fn idle(s: StateView) -> Outcome {
    goes_on(s, Seq::empty(), Next::Exit(0))
}

/// `has-session`: there always is a session.
pub fn cmd_has_session(_args: &[String], _state: &mut State) -> (t: Turn)
    ensures
        t@ == idle(old(_state)@).turn,
        final(_state)@ == old(_state)@,
{
    exit_now(0)
}

/// `new-session` and `new-window`: with `-P`, show the first live pane.
pub open spec fn new_pane_outcome(words: Seq<Seq<char>>, s: StateView) -> Outcome {
    let opts = new_opts(words);
    if opts.print {
        goes_on(s, Seq::empty(), Next::List(OnPanes::NewPane { format: opts.format }))
    } else {
        idle(s)
    }
}

/// `new-session -d -s <name> [-P -F <format>] [-- <command>]`
pub fn cmd_new_session(args: &[String], _state: &mut State) -> (t: Turn)
    ensures
        t@ == new_pane_outcome(texts(args@), old(_state)@).turn,
        final(_state)@ == new_pane_outcome(texts(args@), old(_state)@).state,
{
    let opts = parse_new_args(args);
    if opts.print {
        plain_turn(Next::List(OnPanes::NewPane { format: opts.format }))
    } else {
        exit_now(0)
    }
}

/// `new-window -t <session> -n <name> [-P -F <format>] [-- <command>]`
pub fn cmd_new_window(args: &[String], state: &mut State) -> (t: Turn)
    ensures
        t@ == new_pane_outcome(texts(args@), old(state)@).turn,
        final(state)@ == new_pane_outcome(texts(args@), old(state)@).state,
{
    cmd_new_session(args, state)
}

/// `split-window`: split the target.
pub open spec fn split_outcome(words: Seq<Seq<char>>, env: EnvView, s: StateView) -> Outcome {
    let opts = split_opts(words);
    seek_outcome(
        opts.target,
        Goal::Split { horizontal: opts.horizontal, print: opts.print, format: opts.format },
        env,
        s,
    )
}

/// `split-window -d -t <target> (-v|-h) [-P -F <format>] [-- <command>]`
pub fn cmd_split_window(args: &[String], env: &Env, state: &mut State) -> (t: Turn)
    ensures
        t@ == split_outcome(texts(args@), env@, old(state)@).turn,
        final(state)@ == split_outcome(texts(args@), env@, old(state)@).state,
{
    let opts = parse_split_args(args);
    seek(
        opts.target,
        Goal::Split { horizontal: opts.horizontal, print: opts.print, format: opts.format },
        env,
        state,
    )
}

/// `list-panes`: list the live panes.
pub open spec fn list_outcome(words: Seq<Seq<char>>, s: StateView) -> Outcome {
    let opts = list_opts(words);
    goes_on(
        s,
        Seq::empty(),
        Next::List(OnPanes::Listing { target: opts.target, format: opts.format }),
    )
}

/// `list-panes [-t <target>] -F <format>`
pub fn cmd_list_panes(args: &[String], _state: &mut State) -> (t: Turn)
    ensures
        t@ == list_outcome(texts(args@), old(_state)@).turn,
        final(_state)@ == list_outcome(texts(args@), old(_state)@).state,
{
    let opts = parse_list_args(args);
    plain_turn(Next::List(OnPanes::Listing { target: opts.target, format: opts.format }))
}

/// `display-message`: with a format to print, show the current pane.
pub open spec fn message_outcome(words: Seq<Seq<char>>, env: EnvView, s: StateView) -> Outcome {
    let format = message_format(words, words.len() as int);
    if format.len() > 0 {
        goes_on(
            env.current_state(s),
            Seq::empty(),
            Next::List(OnPanes::Message { current: env.current_id(s), format }),
        )
    } else {
        idle(s)
    }
}

/// `display-message -p <format>`
pub fn cmd_display_message(args: &[String], env: &Env, state: &mut State) -> (t: Turn)
    ensures
        t@ == message_outcome(texts(args@), env@, old(state)@).turn,
        final(state)@ == message_outcome(texts(args@), env@, old(state)@).state,
{
    let format = parse_message_args(args);
    if format.as_str().is_empty() {
        return exit_now(0);
    }
    let current = resolve_current_pane(state, env);
    plain_turn(Next::List(OnPanes::Message { current, format }))
}

/// `select-pane`: set the tab title, if one is given.
pub open spec fn select_outcome(words: Seq<Seq<char>>, s: StateView) -> Outcome {
    let opts = select_opts(words);
    if opts.title.len() > 0 {
        goes_on(
            s,
            seq![Effect::Note(Notice::SetTitle { target: opts.target, title: opts.title })],
            Next::Run(seq!["cli"@, "set-tab-title"@, opts.title], OnRun::Finish),
        )
    } else {
        idle(s)
    }
}

/// `select-pane -t <target> [-T <title>]`
pub fn cmd_select_pane(args: &[String], _state: &mut State) -> (t: Turn)
    ensures
        t@ == select_outcome(texts(args@), old(_state)@).turn,
        final(_state)@ == select_outcome(texts(args@), old(_state)@).state,
{
    let opts = parse_select_args(args);
    if opts.title.as_str().is_empty() {
        return exit_now(0);
    }
    let mut call: Vec<String> = Vec::new();
    call.push("cli".to_owned());
    call.push("set-tab-title".to_owned());
    call.push(opts.title.clone());
    assert(texts(call@) =~= seq!["cli"@, "set-tab-title"@, opts.title@]);
    turn_with(
        Effect::Note(Notice::SetTitle { target: opts.target, title: opts.title }),
        Next::Run(call, OnRun::Finish),
    )
}

/// `set-option`: store a `remain-on-exit` policy, `on` if no value is given.
/// Any other option is accepted without doing anything.
pub open spec fn set_option_outcome(words: Seq<Seq<char>>, env: EnvView, s: StateView) -> Outcome {
    let given = option_words(words);
    if given.len() > 0 && given[0] == "remain-on-exit"@ {
        let value = if given.len() > 1 {
            given[1]
        } else {
            "on"@
        };
        seek_outcome(target_opt(words), Goal::SetPolicy { value }, env, s)
    } else {
        idle(s)
    }
}

/// `set-option -p -t <target> <name> [<value>]`
pub fn cmd_set_option(args: &[String], env: &Env, state: &mut State) -> (t: Turn)
    ensures
        t@ == set_option_outcome(texts(args@), env@, old(state)@).turn,
        final(state)@ == set_option_outcome(texts(args@), env@, old(state)@).state,
{
    let given = parse_option_words(args);
    let ghost words = option_words(texts(args@));
    assert(words.len() == given@.len());
    if given.len() == 0 || !same(given[0].as_str(), "remain-on-exit") {
        assert(given@.len() > 0 ==> words[0] == given@[0]@);
        return exit_now(0);
    }
    assert(words[0] == given@[0]@);
    let value: String = if given.len() > 1 {
        assert(words[1] == given@[1]@);
        given[1].clone()
    } else {
        "on".to_owned()
    };
    seek(parse_target(args), Goal::SetPolicy { value }, env, state)
}

/// `resize-pane`: accepted without doing anything.
pub fn cmd_resize_pane(_args: &[String], _state: &mut State) -> (t: Turn)
    ensures
        t@ == idle(old(_state)@).turn,
        final(_state)@ == old(_state)@,
{
    exit_now(0)
}

/// `respawn-pane`: start a command in the target.
pub open spec fn respawn_outcome(words: Seq<Seq<char>>, env: EnvView, s: StateView) -> Outcome {
    let opts = respawn_opts(words);
    seek_outcome(opts.target, Goal::Respawn { command: opts.command }, env, s)
}

/// `respawn-pane -k -t <target> -- <command>`
pub fn cmd_respawn_pane(args: &[String], env: &Env, state: &mut State) -> (t: Turn)
    ensures
        t@ == respawn_outcome(texts(args@), env@, old(state)@).turn,
        final(state)@ == respawn_outcome(texts(args@), env@, old(state)@).state,
{
    let opts = parse_respawn_args(args);
    seek(opts.target, Goal::Respawn { command: opts.command }, env, state)
}

/// `send-keys`: type into the target, or into the current pane.
pub open spec fn send_keys_outcome(words: Seq<Seq<char>>, env: EnvView, s: StateView) -> Outcome {
    let opts = keys_opts(words);
    seek_or_current(
        opts.target,
        Goal::Type { tokens: opts.tokens, literal: opts.literal },
        env,
        s,
    )
}

/// `send-keys [-l] -t <target> <key or text> ...`
pub fn cmd_send_keys(args: &[String], env: &Env, state: &mut State) -> (t: Turn)
    ensures
        t@ == send_keys_outcome(texts(args@), env@, old(state)@).turn,
        final(state)@ == send_keys_outcome(texts(args@), env@, old(state)@).state,
{
    let opts = parse_keys_args(args);
    seek_given(
        opts.target,
        Goal::Type { tokens: opts.tokens, literal: opts.literal },
        env,
        state,
    )
}

/// `capture-pane`: capture the text of the target, or of the current pane.
pub open spec fn capture_outcome(words: Seq<Seq<char>>, env: EnvView, s: StateView) -> Outcome {
    seek_or_current(
        value_or_empty(words, capture_valued(), "-t"@),
        Goal::Capture {
            print: is_given(words, capture_valued(), "-p"@),
            start: value_for(words, capture_valued(), "-S"@),
            end: value_for(words, capture_valued(), "-E"@),
            escapes: is_given(words, capture_valued(), "-e"@),
        },
        env,
        s,
    )
}

/// `capture-pane -t <target> [-p] [-S <start>] [-E <end>] [-e]`
pub fn cmd_capture_pane(args: &[String], env: &Env, state: &mut State) -> (t: Turn)
    ensures
        t@ == capture_outcome(texts(args@), env@, old(state)@).turn,
        final(state)@ == capture_outcome(texts(args@), env@, old(state)@).state,
{
    let opts = parse_capture_pane_args(args);
    seek_given(
        opts.target,
        Goal::Capture {
            print: opts.print,
            start: opts.start,
            end: opts.end,
            escapes: opts.escapes,
        },
        env,
        state,
    )
}

/// `set-environment`: store a variable.
pub open spec fn set_env_outcome(words: Seq<Seq<char>>, s: StateView) -> Outcome {
    let given = env_words(words);
    if given.len() >= 2 {
        goes_on(
            s.with_env(given[0], given[1]),
            seq![
                Effect::Note(Notice::SetVariable { name: given[0], value: given[1] }),
                Effect::Save,
            ],
            Next::Exit(0),
        )
    } else {
        idle(s)
    }
}

/// `set-environment -g <name> <value>`
pub fn cmd_set_environment(args: &[String], state: &mut State) -> (t: Turn)
    ensures
        t@ == set_env_outcome(texts(args@), old(state)@).turn,
        final(state)@ == set_env_outcome(texts(args@), old(state)@).state,
{
    let given = parse_env_words(args);
    let ghost words = env_words(texts(args@));
    assert(words.len() == given@.len());
    if given.len() < 2 {
        return exit_now(0);
    }
    assert(words[0] == given@[0]@ && words[1] == given@[1]@);
    let name = given[0].clone();
    let value = given[1].clone();
    state.set_env(name.clone(), value.clone());
    turn_with_two(
        Effect::Note(Notice::SetVariable { name, value }),
        Effect::Save,
        Next::Exit(0),
    )
}

/// `show-environment`: show a variable, or exit with 1 if it is not set.
pub open spec fn show_env_outcome(words: Seq<Seq<char>>, s: StateView) -> Outcome {
    let given = env_words(words);
    if given.len() == 0 {
        idle(s)
    } else if s.env_vars.contains_key(given[0]) {
        goes_on(
            s,
            seq![Effect::Line(given[0] + seq!['='] + s.env_vars[given[0]])],
            Next::Exit(0),
        )
    } else {
        goes_on(s, Seq::empty(), Next::Exit(1))
    }
}

/// `show-environment -g <name>`
pub fn cmd_show_environment(args: &[String], state: &mut State) -> (t: Turn)
    ensures
        t@ == show_env_outcome(texts(args@), old(state)@).turn,
        final(state)@ == show_env_outcome(texts(args@), old(state)@).state,
{
    let given = parse_env_words(args);
    let ghost words = env_words(texts(args@));
    assert(words.len() == given@.len());
    if given.len() == 0 {
        return exit_now(0);
    }
    assert(words[0] == given@[0]@);
    match state.env_vars.get(given[0].as_str()) {
        Some(value) => {
            let mut line: String = given[0].clone();
            line.push('=');
            line.append(value.as_str());
            assert(line@ =~= words[0] + seq!['='] + value@);
            turn_with(Effect::Line(line), Next::Exit(0))
        },
        None => exit_now(1),
    }
}

/// `break-pane`: accepted without doing anything.
pub fn cmd_break_pane(_args: &[String], _state: &mut State) -> (t: Turn)
    ensures
        t@ == idle(old(_state)@).turn,
        final(_state)@ == old(_state)@,
{
    exit_now(0)
}

/// `kill-pane`: close the target, or the current pane.
pub open spec fn kill_pane_outcome(words: Seq<Seq<char>>, env: EnvView, s: StateView) -> Outcome {
    seek_or_current(target_opt(words), Goal::Kill, env, s)
}

/// `kill-pane [-t <target>]`
pub fn cmd_kill_pane(args: &[String], env: &Env, state: &mut State) -> (t: Turn)
    ensures
        t@ == kill_pane_outcome(texts(args@), env@, old(state)@).turn,
        final(state)@ == kill_pane_outcome(texts(args@), env@, old(state)@).state,
{
    seek_given(parse_target(args), Goal::Kill, env, state)
}

/// `kill-window`: close the panes of a window.
pub open spec fn kill_window_outcome(words: Seq<Seq<char>>, s: StateView) -> Outcome {
    goes_on(s, Seq::empty(), Next::List(OnPanes::Window { target: target_opt(words) }))
}

/// `kill-window [-t <target>]`
pub fn cmd_kill_window(args: &[String], _state: &mut State) -> (t: Turn)
    ensures
        t@ == kill_window_outcome(texts(args@), old(_state)@).turn,
        final(_state)@ == kill_window_outcome(texts(args@), old(_state)@).state,
{
    plain_turn(Next::List(OnPanes::Window { target: parse_target(args) }))
}

// -------------------------------------------------------------------- choice

/// The subcommands that are accepted without doing anything.
pub open spec fn accepted_names() -> Seq<Seq<char>> {
    seq![
        "select-layout"@,
        "refresh-client"@,
        "set-window-option"@,
        "setw"@,
        "rename-window"@,
        "rename-session"@,
        "move-window"@,
        "swap-pane"@,
    ]
}

/// The subcommand with a given name.
pub open spec fn subcommand_named(name: Seq<char>) -> Subcommand {
    if name == "has-session"@ {
        Subcommand::HasSession
    } else if name == "new-session"@ {
        Subcommand::NewSession
    } else if name == "new-window"@ {
        Subcommand::NewWindow
    } else if name == "split-window"@ {
        Subcommand::SplitWindow
    } else if name == "list-panes"@ {
        Subcommand::ListPanes
    } else if name == "display-message"@ {
        Subcommand::DisplayMessage
    } else if name == "select-pane"@ {
        Subcommand::SelectPane
    } else if name == "set-option"@ {
        Subcommand::SetOption
    } else if name == "resize-pane"@ {
        Subcommand::ResizePane
    } else if name == "respawn-pane"@ {
        Subcommand::RespawnPane
    } else if name == "set-environment"@ || name == "set"@ {
        Subcommand::SetEnvironment
    } else if name == "show-environment"@ {
        Subcommand::ShowEnvironment
    } else if name == "break-pane"@ {
        Subcommand::BreakPane
    } else if name == "kill-pane"@ {
        Subcommand::KillPane
    } else if name == "kill-window"@ {
        Subcommand::KillWindow
    } else if name == "send-keys"@ {
        Subcommand::SendKeys
    } else if name == "capture-pane"@ {
        Subcommand::CapturePane
    } else if accepted_names().contains(name) {
        Subcommand::Accepted
    } else {
        Subcommand::Unknown
    }
}

/// Finds the subcommand with a given name. `kill-session` is not one: it would
/// close panes that have nothing to do with the caller.
pub fn find_subcommand(name: &str) -> (r: Subcommand)
    ensures
        r == subcommand_named(name@),
{
    if same(name, "has-session") {
        Subcommand::HasSession
    } else if same(name, "new-session") {
        Subcommand::NewSession
    } else if same(name, "new-window") {
        Subcommand::NewWindow
    } else if same(name, "split-window") {
        Subcommand::SplitWindow
    } else if same(name, "list-panes") {
        Subcommand::ListPanes
    } else if same(name, "display-message") {
        Subcommand::DisplayMessage
    } else if same(name, "select-pane") {
        Subcommand::SelectPane
    } else if same(name, "set-option") {
        Subcommand::SetOption
    } else if same(name, "resize-pane") {
        Subcommand::ResizePane
    } else if same(name, "respawn-pane") {
        Subcommand::RespawnPane
    } else if same(name, "set-environment") || same(name, "set") {
        Subcommand::SetEnvironment
    } else if same(name, "show-environment") {
        Subcommand::ShowEnvironment
    } else if same(name, "break-pane") {
        Subcommand::BreakPane
    } else if same(name, "kill-pane") {
        Subcommand::KillPane
    } else if same(name, "kill-window") {
        Subcommand::KillWindow
    } else if same(name, "send-keys") {
        Subcommand::SendKeys
    } else if same(name, "capture-pane") {
        Subcommand::CapturePane
    } else {
        let accepted = vec![
            "select-layout",
            "refresh-client",
            "set-window-option",
            "setw",
            "rename-window",
            "rename-session",
            "move-window",
            "swap-pane",
        ];
        assert(words_of(accepted@) =~= accepted_names());
        if one_of(&accepted, name) {
            Subcommand::Accepted
        } else {
            Subcommand::Unknown
        }
    }
}

/// The hint for a subcommand that is not known.
pub open spec fn unhandled_hint(name: Seq<char>) -> Seq<char> {
    "tmux-wezterm-shim: unhandled subcommand '"@ + name
        + "' (not implemented - see shim.log)"@
}

/// The first turn of an invocation. `set -as` sets a server option, which is
/// accepted without doing anything.
pub open spec fn dispatch_outcome(
    name: Seq<char>,
    words: Seq<Seq<char>>,
    env: EnvView,
    s: StateView,
) -> Outcome {
    match subcommand_named(name) {
        Subcommand::HasSession => idle(s),
        Subcommand::NewSession => new_pane_outcome(words, s),
        Subcommand::NewWindow => new_pane_outcome(words, s),
        Subcommand::SplitWindow => split_outcome(words, env, s),
        Subcommand::ListPanes => list_outcome(words, s),
        Subcommand::DisplayMessage => message_outcome(words, env, s),
        Subcommand::SelectPane => select_outcome(words, s),
        Subcommand::SetOption => set_option_outcome(words, env, s),
        Subcommand::ResizePane => idle(s),
        Subcommand::RespawnPane => respawn_outcome(words, env, s),
        Subcommand::SetEnvironment => if name == "set"@ && is_server_option(words) {
            idle(s)
        } else {
            set_env_outcome(words, s)
        },
        Subcommand::ShowEnvironment => show_env_outcome(words, s),
        Subcommand::BreakPane => idle(s),
        Subcommand::KillPane => kill_pane_outcome(words, env, s),
        Subcommand::KillWindow => kill_window_outcome(words, s),
        Subcommand::SendKeys => send_keys_outcome(words, env, s),
        Subcommand::CapturePane => capture_outcome(words, env, s),
        Subcommand::Accepted => goes_on(
            s,
            seq![Effect::Note(Notice::NoOp { subcommand: name })],
            Next::Exit(0),
        ),
        Subcommand::Unknown => goes_on(
            s,
            seq![
                Effect::Note(Notice::Unhandled { subcommand: name, args: words }),
                Effect::Warn(unhandled_hint(name)),
            ],
            Next::Exit(0),
        ),
    }
}

fn copy_words(args: &[String]) -> (r: Vec<String>)
    ensures
        texts(r@) == texts(args@),
{
    let mut r: Vec<String> = Vec::new();
    for i in 0..args.len()
        invariant
            r@ == args@.take(i as int),
    {
        r.push(args[i].clone());
        assert(r@ =~= args@.take(i + 1));
    }
    assert(r@ =~= args@);
    r
}

/// Begins an invocation: picks the subcommand and takes its first turn.
pub fn dispatch(subcommand: &str, args: &[String], env: &Env, state: &mut State) -> (t: Turn)
    ensures
        t@ == dispatch_outcome(subcommand@, texts(args@), env@, old(state)@).turn,
        final(state)@ == dispatch_outcome(subcommand@, texts(args@), env@, old(state)@).state,
{
    match find_subcommand(subcommand) {
        Subcommand::HasSession => cmd_has_session(args, state),
        Subcommand::NewSession => cmd_new_session(args, state),
        Subcommand::NewWindow => cmd_new_window(args, state),
        Subcommand::SplitWindow => cmd_split_window(args, env, state),
        Subcommand::ListPanes => cmd_list_panes(args, state),
        Subcommand::DisplayMessage => cmd_display_message(args, env, state),
        Subcommand::SelectPane => cmd_select_pane(args, state),
        Subcommand::SetOption => cmd_set_option(args, env, state),
        Subcommand::ResizePane => cmd_resize_pane(args, state),
        Subcommand::RespawnPane => cmd_respawn_pane(args, env, state),
        Subcommand::SetEnvironment => {
            if same(subcommand, "set") && names_server_option(args) {
                return exit_now(0);
            }
            cmd_set_environment(args, state)
        },
        Subcommand::ShowEnvironment => cmd_show_environment(args, state),
        Subcommand::BreakPane => cmd_break_pane(args, state),
        Subcommand::KillPane => cmd_kill_pane(args, env, state),
        Subcommand::KillWindow => cmd_kill_window(args, state),
        Subcommand::SendKeys => cmd_send_keys(args, env, state),
        Subcommand::CapturePane => cmd_capture_pane(args, env, state),
        Subcommand::Accepted => turn_with(
            Effect::Note(Notice::NoOp { subcommand: subcommand.to_owned() }),
            Next::Exit(0),
        ),
        Subcommand::Unknown => {
            let mut hint: String = "tmux-wezterm-shim: unhandled subcommand '".to_owned();
            hint.append(subcommand);
            hint.append("' (not implemented - see shim.log)");
            turn_with_two(
                Effect::Note(
                    Notice::Unhandled {
                        subcommand: subcommand.to_owned(),
                        args: copy_words(args),
                    },
                ),
                Effect::Warn(hint),
                Next::Exit(0),
            )
        },
    }
}

} // verus!
