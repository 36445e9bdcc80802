//! The form and the wording of the log.

use crate::text::{decimal, join, joined, show_u64, texts};
use crate::turn::{Notice, Subcommand};
use vstd::prelude::*;

verus! {

/// One line of the log: when, in seconds since the epoch, and what.
pub fn log_entry(seconds: u64, message: &str) -> (r: String)
    ensures
        r@ == seq!['['] + decimal(seconds as nat) + seq![']', ' '] + message@ + seq!['\n'],
{
    let mut line: String = String::new();
    line.push('[');
    line.append(show_u64(seconds).as_str());
    line.push(']');
    line.push(' ');
    line.append(message);
    line.push('\n');
    assert(line@ =~= seq!['['] + decimal(seconds as nat) + seq![']', ' '] + message@ + seq!['\n']);
    line
}

/// An exit code in decimal.
pub open spec fn code_text(code: i32) -> Seq<char> {
    if code < 0 {
        seq!['-'] + decimal((-code) as nat)
    } else {
        decimal(code as nat)
    }
}

/// Writes an exit code.
pub fn show_code(code: i32) -> (r: String)
    ensures
        r@ == code_text(code),
{
    let mut s: String = String::new();
    if code < 0 {
        s.push('-');
        s.append(show_u64((-(code as i64)) as u64).as_str());
    } else {
        s.append(show_u64(code as u64).as_str());
    }
    assert(s@ =~= code_text(code));
    s
}

pub open spec fn bool_text(b: bool) -> Seq<char> {
    if b {
        "true"@
    } else {
        "false"@
    }
}

/// The name that a command has in the log.
pub open spec fn command_name(command: Subcommand) -> Seq<char> {
    match command {
        Subcommand::HasSession => "has-session"@,
        Subcommand::NewSession => "new-session"@,
        Subcommand::NewWindow => "new-window"@,
        Subcommand::SplitWindow => "split-window"@,
        Subcommand::ListPanes => "list-panes"@,
        Subcommand::DisplayMessage => "display-message"@,
        Subcommand::SelectPane => "select-pane"@,
        Subcommand::SetOption => "set-option"@,
        Subcommand::ResizePane => "resize-pane"@,
        Subcommand::RespawnPane => "respawn-pane"@,
        Subcommand::SetEnvironment => "set-environment"@,
        Subcommand::ShowEnvironment => "show-environment"@,
        Subcommand::BreakPane => "break-pane"@,
        Subcommand::KillPane => "kill-pane"@,
        Subcommand::KillWindow => "kill-window"@,
        Subcommand::SendKeys => "send-keys"@,
        Subcommand::CapturePane => "capture-pane"@,
        Subcommand::Accepted => "accepted"@,
        Subcommand::Unknown => "unknown"@,
    }
}

/// The name that a command has in the log.
pub fn show_command(command: Subcommand) -> (r: &'static str)
    ensures
        r@ == command_name(command),
{
    match command {
        Subcommand::HasSession => "has-session",
        Subcommand::NewSession => "new-session",
        Subcommand::NewWindow => "new-window",
        Subcommand::SplitWindow => "split-window",
        Subcommand::ListPanes => "list-panes",
        Subcommand::DisplayMessage => "display-message",
        Subcommand::SelectPane => "select-pane",
        Subcommand::SetOption => "set-option",
        Subcommand::ResizePane => "resize-pane",
        Subcommand::RespawnPane => "respawn-pane",
        Subcommand::SetEnvironment => "set-environment",
        Subcommand::ShowEnvironment => "show-environment",
        Subcommand::BreakPane => "break-pane",
        Subcommand::KillPane => "kill-pane",
        Subcommand::KillWindow => "kill-window",
        Subcommand::SendKeys => "send-keys",
        Subcommand::CapturePane => "capture-pane",
        Subcommand::Accepted => "accepted",
        Subcommand::Unknown => "unknown",
    }
}

/// What the log says of a notice. `quoted` is the typed text or the unknown
/// subcommand in quotes, `quoted_args` are the arguments of that subcommand.
pub open spec fn notice_text(
    notice: Notice<Seq<char>, Seq<Seq<char>>>,
    quoted: Seq<char>,
    quoted_args: Seq<char>,
) -> Seq<char> {
    match notice {
        Notice::Unresolved { command, target } => "  "@ + command_name(command)
            + ": could not resolve target="@ + target,
        Notice::SplitFailed { exit } => "  split-pane failed (exit="@ + code_text(exit)
            + "); falling back to synthetic pane id"@,
        Notice::SyntheticId =>
            "  could not parse split-pane stdout; allocating synthetic id"@,
        Notice::SetTitle { target, title } => "  select-pane: set-tab-title target="@ + target
            + " title="@ + title,
        Notice::Policy { target, pane, value } => "  set-option: remain-on-exit target="@ + target
            + " wez_target="@ + decimal(pane as nat) + " value="@ + value,
        Notice::NothingToRun => "  respawn-pane: no cmd after --; nothing to do"@,
        Notice::UsingBash { bash } => "  respawn-pane: using bash="@ + bash,
        Notice::NoBash =>
            "  respawn-pane: no bash.exe found (Git for Windows required); launcher will fail"@,
        Notice::Typing { target, pane, literal, text } => "  send-keys: target="@ + target
            + " wez_target="@ + decimal(pane as nat) + " literal="@ + bool_text(literal)
            + " text="@ + quoted,
        Notice::NotPrinted =>
            "  capture-pane: -p not set; nothing to output (no tmux paste-buffer equivalent)"@,
        Notice::SetVariable { name, value } => "  set-environment: "@ + name + "="@ + value,
        Notice::KillPane { target, pane } => "  kill-pane: target="@ + target + " wez_target="@
            + decimal(pane as nat),
        Notice::KillPaneExit { exit } => "  kill-pane: wezterm exit="@ + code_text(exit),
        Notice::KillWindow { window } => "  kill-window: window_id="@ + decimal(window as nat),
        Notice::KilledInWindow { pane, exit } => "  kill-window: killed pane_id="@ + decimal(
            pane as nat,
        ) + " exit="@ + code_text(exit),
        Notice::NoOp { subcommand } => "NOOP: "@ + subcommand + " (known-accepted no-op)"@,
        Notice::Unhandled { subcommand, args } => "UNHANDLED: subcommand="@ + quoted + " args="@
            + quoted_args,
    }
}

fn concat2(a: &str, b: &str) -> (r: String)
    ensures
        r@ == a@ + b@,
{
    let mut s: String = a.to_owned();
    s.append(b);
    s
}

fn concat4(a: &str, b: &str, c: &str, d: &str) -> (r: String)
    ensures
        r@ == a@ + b@ + c@ + d@,
{
    let mut s = concat2(a, b);
    s.append(c);
    s.append(d);
    s
}

/// What the log says of a notice. `quoted` is the typed text or the unknown
/// subcommand in quotes, `quoted_args` are the arguments of that subcommand.
pub fn show_notice(
    notice: &Notice<String, Vec<String>>,
    quoted: &str,
    quoted_args: &str,
) -> (r: String)
    ensures
        r@ == notice_text(notice@, quoted@, quoted_args@),
{
    match notice {
        Notice::Unresolved { command, target } => concat4(
            "  ",
            show_command(*command),
            ": could not resolve target=",
            target.as_str(),
        ),
        Notice::SplitFailed { exit } => {
            let mut s = concat2("  split-pane failed (exit=", show_code(*exit).as_str());
            s.append("); falling back to synthetic pane id");
            s
        },
        Notice::SyntheticId =>
            "  could not parse split-pane stdout; allocating synthetic id".to_owned(),
        Notice::SetTitle { target, title } => concat4(
            "  select-pane: set-tab-title target=",
            target.as_str(),
            " title=",
            title.as_str(),
        ),
        Notice::Policy { target, pane, value } => {
            let mut s = concat4(
                "  set-option: remain-on-exit target=",
                target.as_str(),
                " wez_target=",
                show_u64(*pane).as_str(),
            );
            s.append(" value=");
            s.append(value.as_str());
            s
        },
        Notice::NothingToRun => "  respawn-pane: no cmd after --; nothing to do".to_owned(),
        Notice::UsingBash { bash } => concat2("  respawn-pane: using bash=", bash.as_str()),
        Notice::NoBash =>
            "  respawn-pane: no bash.exe found (Git for Windows required); launcher will fail".to_owned(),
        Notice::Typing { target, pane, literal, text } => {
            let mut s = concat4(
                "  send-keys: target=",
                target.as_str(),
                " wez_target=",
                show_u64(*pane).as_str(),
            );
            s.append(" literal=");
            s.append(
                if *literal {
                    "true"
                } else {
                    "false"
                },
            );
            s.append(" text=");
            s.append(quoted);
            s
        },
        Notice::NotPrinted =>
            "  capture-pane: -p not set; nothing to output (no tmux paste-buffer equivalent)".to_owned(),
        Notice::SetVariable { name, value } => concat4(
            "  set-environment: ",
            name.as_str(),
            "=",
            value.as_str(),
        ),
        Notice::KillPane { target, pane } => concat4(
            "  kill-pane: target=",
            target.as_str(),
            " wez_target=",
            show_u64(*pane).as_str(),
        ),
        Notice::KillPaneExit { exit } => concat2(
            "  kill-pane: wezterm exit=",
            show_code(*exit).as_str(),
        ),
        Notice::KillWindow { window } => concat2(
            "  kill-window: window_id=",
            show_u64(*window).as_str(),
        ),
        Notice::KilledInWindow { pane, exit } => concat4(
            "  kill-window: killed pane_id=",
            show_u64(*pane).as_str(),
            " exit=",
            show_code(*exit).as_str(),
        ),
        Notice::NoOp { subcommand } => {
            let mut s = concat2("NOOP: ", subcommand.as_str());
            s.append(" (known-accepted no-op)");
            s
        },
        Notice::Unhandled { subcommand, args } => concat4(
            "UNHANDLED: subcommand=",
            quoted,
            " args=",
            quoted_args,
        ),
    }
}

/// What the log says of an invocation. `quoted_argv` is its command line.
pub fn show_invocation(quoted_argv: &str) -> (r: String)
    ensures
        r@ == "INVOKE: "@ + quoted_argv@,
{
    concat2("INVOKE: ", quoted_argv)
}

/// What the log says of a WezTerm call that is about to be made.
pub fn show_call(program: &str, args: &[String]) -> (r: String)
    ensures
        r@ == "  wezterm cmd: "@ + program@ + " "@ + joined(texts(args@), " "@),
{
    concat4("  wezterm cmd: ", program, " ", join(args, " ").as_str())
}

/// What the log says of a WezTerm call that was made. `quoted_stdout` and
/// `quoted_stderr` are what it printed.
pub fn show_result(exit: i32, quoted_stdout: &str, quoted_stderr: &str) -> (r: String)
    ensures
        r@ == "  wezterm exit="@ + code_text(exit) + " stdout="@ + quoted_stdout@ + " stderr="@
            + quoted_stderr@,
{
    let mut s = concat4(
        "  wezterm exit=",
        show_code(exit).as_str(),
        " stdout=",
        quoted_stdout,
    );
    s.append(" stderr=");
    s.append(quoted_stderr);
    s
}

/// What the log says at the end of an invocation.
pub fn show_exit(code: i32) -> (r: String)
    ensures
        r@ == "  -> exit "@ + code_text(code),
{
    concat2("  -> exit ", show_code(code).as_str())
}

} // verus!
