//! What the launcher scripts do with variables and policies.

use crate::goals::{goal_outcome, typing_call};
use crate::launcher::{
    export_line, export_lines, is_break, kill_command, policy_of, quote_body, script_lines,
    script_text, teardown_lines, without_breaks, wrapper_text,
};
use crate::paths::{in_dir, PathStyle};
use crate::resume::{bash_turn, write_turn};
use crate::state::StateView;
use crate::text::{decimal, is_digit, joined, lemma_decimal_digits};
use crate::turn::{EffectView, Goal, NextView, Notice, OnRun, OnWrite, TurnView};
use vstd::prelude::*;

verus! {

/// How a shell reads a text as one word in which every character is quoted or
/// escaped: between single quotes each character stands for itself, outside of
/// them a backslash makes the next one do so. There is no such reading where a
/// character stands open, a line break is escaped, or the quotes are not closed.
pub open spec fn shell_word(s: Seq<char>, in_quotes: bool) -> Option<Seq<char>>
    decreases s.len(),
{
    if s.len() == 0 {
        if in_quotes {
            None
        } else {
            Some(Seq::empty())
        }
    } else if s[0] == '\'' {
        shell_word(s.skip(1), !in_quotes)
    } else if in_quotes {
        match shell_word(s.skip(1), true) {
            Some(rest) => Some(seq![s[0]] + rest),
            None => None,
        }
    } else if s[0] == '\\' && s.len() > 1 && s[1] != '\n' {
        match shell_word(s.skip(2), false) {
            Some(rest) => Some(seq![s[1]] + rest),
            None => None,
        }
    } else {
        None
    }
}

proof fn lemma_quote_body_step(v: Seq<char>)
    requires
        v.len() > 0,
    ensures
        quote_body(v) == (if v[0] == '\'' {
            seq!['\'', '\\', '\'', '\'']
        } else {
            seq![v[0]]
        }) + quote_body(v.skip(1)),
{
    let pat = seq!['\''];
    if v[0] == '\'' {
        assert(v.take(1) =~= pat);
    } else {
        assert(v.take(1)[0] != pat[0]);
    }
}

proof fn lemma_quoted_reads_back(v: Seq<char>)
    ensures
        shell_word(quote_body(v) + seq!['\''], true) == Some(v),
    decreases v.len(),
{
    let q = quote_body(v) + seq!['\''];
    if v.len() == 0 {
        assert(q =~= seq!['\'']);
        assert(q.skip(1) =~= Seq::<char>::empty());
        assert(shell_word(q.skip(1), false) == Some(Seq::<char>::empty()));
        assert(v =~= Seq::<char>::empty());
    } else {
        let rest = v.skip(1);
        let tail = quote_body(rest) + seq!['\''];
        lemma_quoted_reads_back(rest);
        lemma_quote_body_step(v);
        assert(seq![v[0]] + rest =~= v);
        if v[0] == '\'' {
            assert(q =~= seq!['\'', '\\', '\'', '\''] + tail);
            let after_quote = q.skip(1);
            assert(after_quote =~= seq!['\\', '\'', '\''] + tail);
            let after_escape = after_quote.skip(2);
            assert(after_escape =~= seq!['\''] + tail);
            assert(after_escape.skip(1) =~= tail);
            assert(shell_word(after_escape, false) == Some(rest));
            assert(after_quote[0] == '\\' && after_quote[1] == '\'');
            assert(shell_word(after_quote, false) == Some(seq!['\''] + rest));
            assert(q[0] == '\'');
        } else {
            assert(q =~= seq![v[0]] + tail);
            assert(q.skip(1) =~= tail);
            assert(q[0] == v[0]);
            assert(shell_word(q.skip(1), true) == Some(rest));
        }
    }
}

/// A shell reads an exported value back as it was stored, line breaks aside: no
/// character of it is open to interpretation.
pub proof fn law_exports_are_inert(name: Seq<char>, value: Seq<char>)
    ensures
        export_line(name, value) == "export "@ + name + "="@ + seq!['\''] + quote_body(
            without_breaks(value),
        ) + seq!['\''],
        shell_word(seq!['\''] + quote_body(without_breaks(value)) + seq!['\''], false) == Some(
            without_breaks(value),
        ),
{
    let clean = without_breaks(value);
    reveal_strlit("='");
    reveal_strlit("=");
    reveal_strlit("'");
    assert(export_line(name, value) =~= "export "@ + name + "="@ + seq!['\''] + quote_body(clean)
        + seq!['\'']);
    lemma_quoted_reads_back(clean);
    let word = seq!['\''] + quote_body(clean) + seq!['\''];
    assert(word.skip(1) =~= quote_body(clean) + seq!['\'']);
}

/// Whether a text has no line break.
pub open spec fn one_line(s: Seq<char>) -> bool {
    forall|i: int| 0 <= i < s.len() ==> !is_break(#[trigger] s[i])
}

proof fn lemma_quote_body_one_line(v: Seq<char>)
    requires
        one_line(v),
    ensures
        one_line(quote_body(v)),
    decreases v.len(),
{
    if v.len() > 0 {
        lemma_quote_body_step(v);
        assert forall|i: int| 0 <= i < v.skip(1).len() implies !is_break(
            #[trigger] v.skip(1)[i],
        ) by {
            assert(v.skip(1)[i] == v[i + 1]);
        }
        lemma_quote_body_one_line(v.skip(1));
        assert(!is_break(v[0]));
    }
}

/// An export stays on its line: a stored value cannot bring in a line of its
/// own.
pub proof fn law_exports_are_one_line(name: Seq<char>, value: Seq<char>)
    requires
        one_line(name),
    ensures
        one_line(export_line(name, value)),
{
    let clean = without_breaks(value);
    let keep = |c: char| !is_break(c);
    assert(one_line(clean)) by {
        assert forall|i: int| 0 <= i < clean.len() implies !is_break(#[trigger] clean[i]) by {
            value.lemma_filter_pred(keep, i);
        }
    }
    lemma_quote_body_one_line(clean);
    reveal_strlit("export ");
    reveal_strlit("='");
    reveal_strlit("'");
    assert(one_line("export "@));
    assert(one_line("='"@));
    assert(one_line("'"@));
}

/// A script exports every stored variable with its value, once, before it runs
/// the command.
pub proof fn law_every_variable_is_exported(
    s: StateView,
    pane: u64,
    command: Seq<char>,
    name: Seq<char>,
)
    requires
        s.env_listed(),
        s.env_vars.contains_key(name),
    ensures
        exists|i: int|
            0 <= i < s.env_names.len() && #[trigger] s.env_names[i] == name && script_lines(
                s,
                pane,
                command,
            )[i + 1] == export_line(name, s.env_vars[name]),
        script_lines(s, pane, command)[s.env_names.len() as int + 1] == command,
        s.env_names.no_duplicates(),
{
    assert(s.env_names.contains(name));
    let i = choose|i: int| 0 <= i < s.env_names.len() && s.env_names[i] == name;
    assert(export_lines(s)[i] == export_line(name, s.env_vars[name]));
    assert(script_lines(s, pane, command)[i + 1] == export_lines(s)[i]);
}

/// What comes after the command: its exit code is kept, then the pane is closed
/// as the policy that was set last asks.
pub proof fn law_policy_governs_the_script(
    s: StateView,
    pane: u64,
    value: Seq<char>,
    command: Seq<char>,
)
    ensures
        script_lines(s.with_policy(pane, value), pane, command).skip(
            s.env_names.len() as int + 2,
        )
            =~= seq!["rc=$?"@] + teardown_lines(value, pane),
        forall|other: u64|
            other != pane ==> #[trigger] policy_of(s.with_policy(pane, value), other) == policy_of(
                s,
                other,
            ),
{
    let after = s.with_policy(pane, value);
    assert(policy_of(after, pane) == value);
    assert(export_lines(after).len() == s.env_names.len());
}

/// A pane that was never given a policy, or has been forgotten, is closed as
/// soon as its command ends.
pub proof fn law_panes_close_by_default(s: StateView, pane: u64)
    ensures
        teardown_lines(policy_of(s.forget(pane), pane), pane) == seq![kill_command(pane)],
{
    reveal_strlit("off");
    reveal_strlit("on");
    reveal_strlit("failed");
    assert("off"@.len() == 3 && "on"@.len() == 2 && "failed"@.len() == 6);
}

/// What is typed into a pane is the path of the batch file that was written for
/// it, and that file runs the script that was written for it.
pub proof fn law_launcher_files_fit_together(
    target: Seq<char>,
    command: Seq<Seq<char>>,
    pane: u64,
    bash: Option<Seq<char>>,
    style: PathStyle,
    dir: Seq<char>,
    s: StateView,
)
    requires
        command.len() > 0,
    ensures
        ({
            let start = goal_outcome(Goal::Respawn { command }, target, Some(pane), s).turn.next;
            let wrap = bash_turn(pane, bash, style, dir).next;
            &&& start is Write
            &&& write_turn(start->task, true, style, dir).next == NextView::FindBash { pane }
            &&& wrap is Write
            &&& exists|program: Seq<char>|
                wrap->content == #[trigger] wrapper_text(program, in_dir(style, dir, start->name))
            &&& write_turn(wrap->task, true, style, dir).next == NextView::Run(
                typing_call(pane, in_dir(style, dir, wrap->name) + seq!['\r']),
                OnRun::Finish,
            )
        }),
{
    let program = match bash {
        Some(b) => b,
        None => "bash"@,
    };
    let start = goal_outcome(Goal::Respawn { command }, target, Some(pane), s).turn.next;
    assert(bash_turn(pane, bash, style, dir).next->content == wrapper_text(
        program,
        in_dir(style, dir, start->name),
    ));
}

// ----------------------------------------------------------------- line endings

/// Whether a text has no carriage return.
pub open spec fn no_return(s: Seq<char>) -> bool {
    forall|i: int| 0 <= i < s.len() ==> #[trigger] s[i] != '\r'
}

proof fn lemma_joined_no_return(list: Seq<Seq<char>>, sep: Seq<char>)
    requires
        forall|i: int| 0 <= i < list.len() ==> no_return(#[trigger] list[i]),
        no_return(sep),
    ensures
        no_return(joined(list, sep)),
    decreases list.len(),
{
    if list.len() > 1 {
        let init = list.drop_last();
        assert forall|i: int| 0 <= i < init.len() implies no_return(#[trigger] init[i]) by {
            assert(init[i] == list[i]);
        }
        lemma_joined_no_return(init, sep);
        assert(no_return(list[list.len() - 1]));
    } else if list.len() == 1 {
        assert(no_return(list[0]));
    }
}

proof fn lemma_kill_command_no_return(pane: u64)
    ensures
        no_return(kill_command(pane)),
{
    lemma_decimal_digits(pane as nat);
    reveal_strlit("wezterm cli kill-pane --pane-id ");
    assert(no_return("wezterm cli kill-pane --pane-id "@));
    assert forall|i: int| 0 <= i < decimal(pane as nat).len() implies #[trigger] decimal(
        pane as nat,
    )[i] != '\r' by {
        assert(is_digit(decimal(pane as nat)[i]));
    }
}

/// The bash script ends its lines with line feeds alone, if the command and the
/// names of the variables hold no carriage return; what the variables hold does
/// not matter.
pub proof fn law_script_has_plain_line_ends(s: StateView, pane: u64, command: Seq<char>)
    requires
        no_return(command),
        forall|i: int| 0 <= i < s.env_names.len() ==> one_line(#[trigger] s.env_names[i]),
    ensures
        no_return(script_text(s, pane, command)),
{
    let lines = script_lines(s, pane, command);
    let exports = export_lines(s);
    let policy = policy_of(s, pane);
    reveal_strlit("#!/usr/bin/env bash");
    reveal_strlit("rc=$?");
    reveal_strlit("\n");
    assert(no_return("\n"@));
    lemma_kill_command_no_return(pane);
    assert forall|i: int| 0 <= i < lines.len() implies no_return(#[trigger] lines[i]) by {
        let n = exports.len() as int;
        if i == 0 {
            assert(lines[i] == "#!/usr/bin/env bash"@);
        } else if i <= n {
            assert(lines[i] == exports[i - 1]);
            let name = s.env_names[i - 1];
            law_exports_are_one_line(name, s.env_vars[name]);
            assert(forall|k: int|
                0 <= k < lines[i].len() ==> !is_break(#[trigger] lines[i][k]));
        } else if i == n + 1 {
            assert(lines[i] == command);
        } else if i == n + 2 {
            assert(lines[i] == "rc=$?"@);
        } else {
            assert(lines[i] == teardown_lines(policy, pane)[i - n - 3]);
            reveal_strlit("if [ \"$rc\" -eq 0 ]; then ");
            reveal_strlit("; fi");
            assert(no_return("if [ \"$rc\" -eq 0 ]; then "@));
            assert(no_return("; fi"@));
        }
    }
    lemma_joined_no_return(lines, "\n"@);
}

// ------------------------------------------------------------ what is written

/// Carriage returns and line feeds are dropped from a text, and every other
/// character stays in its place.
pub proof fn law_only_line_breaks_are_dropped(c: char, first: Seq<char>, second: Seq<char>)
    ensures
        without_breaks(Seq::empty()) == Seq::<char>::empty(),
        without_breaks(seq![c]) == (if c == '\r' || c == '\n' {
            Seq::<char>::empty()
        } else {
            seq![c]
        }),
        without_breaks(first + second) == without_breaks(first) + without_breaks(second),
{
    let keep = |c: char| !is_break(c);
    reveal(Seq::filter);
    assert(Seq::<char>::empty().filter(keep) =~= Seq::<char>::empty());
    assert(seq![c].drop_last() =~= Seq::<char>::empty());
    Seq::filter_distributes_over_add(first, second, keep);
}

/// A text without carriage returns and line feeds keeps every character.
pub proof fn law_one_line_texts_are_kept(value: Seq<char>)
    requires
        forall|i: int| 0 <= i < value.len() ==> #[trigger] value[i] != '\r' && value[i] != '\n',
    ensures
        without_breaks(value) == value,
    decreases value.len(),
{
    if value.len() > 0 {
        let init = value.drop_last();
        let last = value.last();
        assert forall|i: int| 0 <= i < init.len() implies #[trigger] init[i] != '\r' && init[i]
            != '\n' by {
            assert(init[i] == value[i]);
        }
        law_one_line_texts_are_kept(init);
        law_only_line_breaks_are_dropped(last, init, seq![last]);
        assert(value =~= init + seq![last]);
        assert(value[value.len() - 1] == last);
    } else {
        law_only_line_breaks_are_dropped(' ', value, value);
        assert(value =~= Seq::<char>::empty());
    }
}

/// Quoting puts `'\\''` in the place of each single quote and leaves every other
/// character as it is.
pub proof fn law_quoting(c: char, rest: Seq<char>)
    ensures
        quote_body(Seq::empty()) == Seq::<char>::empty(),
        quote_body(seq![c] + rest) == (if c == '\'' {
            "'\\''"@
        } else {
            seq![c]
        }) + quote_body(rest),
{
    reveal_strlit("'\\''");
    assert("'\\''"@ =~= seq!['\'', '\\', '\'', '\'']);
    lemma_quote_body_step(seq![c] + rest);
    assert((seq![c] + rest).skip(1) =~= rest);
}

/// A script exports a value that is one line so that a shell reads back exactly
/// that value.
pub proof fn law_exported_values_read_back(name: Seq<char>, value: Seq<char>)
    requires
        forall|i: int| 0 <= i < value.len() ==> #[trigger] value[i] != '\r' && value[i] != '\n',
    ensures
        exists|word: Seq<char>|
            export_line(name, value) == "export "@ + name + "="@ + word && #[trigger] shell_word(
                word,
                false,
            ) == Some(value),
{
    law_one_line_texts_are_kept(value);
    law_exports_are_inert(name, value);
    let word = seq!['\''] + quote_body(value) + seq!['\''];
    assert(export_line(name, value) =~= "export "@ + name + "="@ + word);
    assert(shell_word(word, false) == Some(value));
}

/// How a shell reads quotes: a quote opens or closes them, between them every
/// character stands for itself, and outside a backslash makes the next character
/// do so. A word is read once the quotes are closed.
pub proof fn law_shell_words(c: char, rest: Seq<char>)
    ensures
        shell_word(Seq::empty(), false) == Some(Seq::<char>::empty()),
        shell_word(Seq::empty(), true) is None,
        shell_word(seq!['\''] + rest, true) == shell_word(rest, false),
        shell_word(seq!['\''] + rest, false) == shell_word(rest, true),
        c != '\'' ==> shell_word(seq![c] + rest, true) == (match shell_word(rest, true) {
            Some(r) => Some(seq![c] + r),
            None => None,
        }),
        c != '\n' ==> shell_word(seq!['\\', c] + rest, false) == (match shell_word(rest, false) {
            Some(r) => Some(seq![c] + r),
            None => None,
        }),
        c != '\'' && c != '\\' ==> shell_word(seq![c] + rest, false) is None,
{
    assert((seq!['\''] + rest).skip(1) =~= rest);
    assert((seq![c] + rest).skip(1) =~= rest);
    assert((seq!['\\', c] + rest).skip(2) =~= rest);
}

/// The line that exports a variable.
pub proof fn law_export_lines(name: Seq<char>, value: Seq<char>)
    ensures
        export_line(name, value) == "export "@ + name + "='"@ + quote_body(without_breaks(value))
            + "'"@,
{
}

/// A script has a first line for the system, one line per variable in their
/// order, the command, a line that keeps its exit code, and what the policy of
/// the pane asks for: nothing under `on`, closing after a clean exit under
/// `failed`, and closing in any other case, also without a policy. Each line
/// ends with a line feed.
pub proof fn law_script_line_by_line(s: StateView, pane: u64, command: Seq<char>)
    ensures
        exists|lines: Seq<Seq<char>>|
            {
                let n = s.env_names.len() as int;
                let kill = "wezterm cli kill-pane --pane-id "@ + decimal(pane as nat);
                let set = s.remain_on_exit.contains_key(pane);
                let policy = s.remain_on_exit[pane];
                &&& script_text(s, pane, command) == #[trigger] joined(lines, "\n"@) + "\n"@
                &&& lines.len() >= n + 3
                &&& lines[0] == "#!/usr/bin/env bash"@
                &&& forall|i: int|
                    0 <= i < n ==> #[trigger] lines[i + 1] == export_line(
                        s.env_names[i],
                        s.env_vars[s.env_names[i]],
                    )
                &&& lines[n + 1] == command
                &&& lines[n + 2] == "rc=$?"@
                &&& if set && policy == "on"@ {
                    lines.len() == n + 3
                } else if set && policy == "failed"@ {
                    lines.len() == n + 4 && lines[n + 3] == "if [ \"$rc\" -eq 0 ]; then "@ + kill
                        + "; fi"@
                } else {
                    lines.len() == n + 4 && lines[n + 3] == kill
                }
            },
{
    let lines = script_lines(s, pane, command);
    let n = s.env_names.len() as int;
    reveal_strlit("off");
    reveal_strlit("on");
    reveal_strlit("failed");
    assert("off"@.len() == 3 && "on"@.len() == 2 && "failed"@.len() == 6);
    assert(script_text(s, pane, command) == joined(lines, "\n"@) + "\n"@);
    assert forall|i: int| 0 <= i < n implies #[trigger] lines[i + 1] == export_line(
        s.env_names[i],
        s.env_vars[s.env_names[i]],
    ) by {
        assert(lines[i + 1] == export_lines(s)[i]);
    }
}

/// Once its script is written, a respawn looks for bash. Then it writes a batch
/// file that hands the script to bash, and once that is written it types the
/// path of the batch file and a carriage return. Where a file cannot be written,
/// it ends.
pub proof fn law_respawn_step_by_step(
    pane: u64,
    bash: Option<Seq<char>>,
    style: PathStyle,
    dir: Seq<char>,
)
    ensures
        write_turn(OnWrite::Script { pane }, true, style, dir) == (TurnView {
            effects: Seq::empty(),
            next: NextView::FindBash { pane },
        }),
        ({
            let script = in_dir(style, dir, "respawn_"@ + decimal(pane as nat) + ".sh"@);
            let program = match bash {
                Some(b) => b,
                None => "bash"@,
            };
            bash_turn(pane, bash, style, dir) == TurnView {
                effects: seq![
                    EffectView::Note(
                        match bash {
                            Some(b) => Notice::UsingBash { bash: b },
                            None => Notice::NoBash,
                        },
                    ),
                ],
                next: NextView::Write {
                    name: "respawn_"@ + decimal(pane as nat) + ".cmd"@,
                    content: "@echo off\r\n\""@ + program + "\" \""@ + script + "\"\r\n"@,
                    task: OnWrite::Wrapper { pane },
                },
            }
        }),
        write_turn(OnWrite::Wrapper { pane }, true, style, dir) == (TurnView {
            effects: Seq::empty(),
            next: NextView::Run(
                seq![
                    "cli"@,
                    "send-text"@,
                    "--pane-id"@,
                    decimal(pane as nat),
                    "--no-paste"@,
                    in_dir(style, dir, "respawn_"@ + decimal(pane as nat) + ".cmd"@) + "\r"@,
                ],
                OnRun::Finish,
            ),
        }),
        write_turn(OnWrite::Script { pane }, false, style, dir) == (TurnView {
            effects: Seq::empty(),
            next: NextView::Exit(0),
        }),
        write_turn(OnWrite::Wrapper { pane }, false, style, dir) == (TurnView {
            effects: Seq::empty(),
            next: NextView::Exit(0),
        }),
{
    reveal_strlit("\r");
    assert("\r"@ =~= seq!['\r']);
    let typed = in_dir(style, dir, "respawn_"@ + decimal(pane as nat) + ".cmd"@) + "\r"@;
    assert(write_turn(OnWrite::Wrapper { pane }, true, style, dir).next->Run_0 =~= seq![
        "cli"@,
        "send-text"@,
        "--pane-id"@,
        decimal(pane as nat),
        "--no-paste"@,
        typed,
    ]);
}

} // verus!
