//! The launcher scripts that start a command in a pane.
//!
//! A bash script exports the stored variables, runs the command, and closes
//! the pane as its `remain-on-exit` policy asks. A batch file hands that script
//! to bash, whatever shell the pane is running.

use crate::state::{State, StateView};
use crate::text::{chars_of, decimal, join, joined, replace_all, replaced, same, show_u64, texts};
use vstd::prelude::*;

verus! {

broadcast use vstd::std_specs::hash::group_hash_axioms;

pub open spec fn is_break(c: char) -> bool {
    c == '\r' || c == '\n'
}

/// A text without its line breaks.
pub open spec fn without_breaks(s: Seq<char>) -> Seq<char> {
    s.filter(|c: char| !is_break(c))
}

/// A text as it stands between single quotes in a shell script: each single
/// quote closes the quotes, stands escaped, and opens them again.
pub open spec fn quote_body(s: Seq<char>) -> Seq<char> {
    replaced(s, seq!['\''], seq!['\'', '\\', '\'', '\''])
}

/// The script line that exports one variable.
pub open spec fn export_line(name: Seq<char>, value: Seq<char>) -> Seq<char> {
    "export "@ + name + "='"@ + quote_body(without_breaks(value)) + "'"@
}

/// The script lines that export the stored variables.
pub open spec fn export_lines(s: StateView) -> Seq<Seq<char>> {
    s.env_names.map_values(|name: Seq<char>| export_line(name, s.env_vars[name]))
}

/// The command that closes a pane.
pub open spec fn kill_command(pane: u64) -> Seq<char> {
    "wezterm cli kill-pane --pane-id "@ + decimal(pane as nat)
}

/// The `remain-on-exit` policy of a pane; `off` if it was never set.
pub open spec fn policy_of(s: StateView, pane: u64) -> Seq<char> {
    if s.remain_on_exit.contains_key(pane) {
        s.remain_on_exit[pane]
    } else {
        "off"@
    }
}

/// The script lines that close the pane once the command has ended: never
/// under `on`, after a clean exit under `failed`, and always otherwise.
pub open spec fn teardown_lines(policy: Seq<char>, pane: u64) -> Seq<Seq<char>> {
    if policy == "on"@ {
        Seq::empty()
    } else if policy == "failed"@ {
        seq!["if [ \"$rc\" -eq 0 ]; then "@ + kill_command(pane) + "; fi"@]
    } else {
        seq![kill_command(pane)]
    }
}

/// The lines of the bash script.
pub open spec fn script_lines(s: StateView, pane: u64, command: Seq<char>) -> Seq<Seq<char>> {
    seq!["#!/usr/bin/env bash"@] + export_lines(s) + seq![command, "rc=$?"@] + teardown_lines(
        policy_of(s, pane),
        pane,
    )
}

/// The bash script: its lines, each ended by a line feed.
pub open spec fn script_text(s: StateView, pane: u64, command: Seq<char>) -> Seq<char> {
    joined(script_lines(s, pane, command), "\n"@) + "\n"@
}

/// The batch file that runs a bash script.
pub open spec fn wrapper_text(bash: Seq<char>, script: Seq<char>) -> Seq<char> {
    "@echo off\r\n\""@ + bash + "\" \""@ + script + "\"\r\n"@
}

/// The name of the bash script for a pane.
pub open spec fn script_name(pane: u64) -> Seq<char> {
    "respawn_"@ + decimal(pane as nat) + ".sh"@
}

/// The name of the batch file for a pane.
pub open spec fn wrapper_name(pane: u64) -> Seq<char> {
    "respawn_"@ + decimal(pane as nat) + ".cmd"@
}

fn concat3(a: &str, b: &str, c: &str) -> (r: String)
    ensures
        r@ == a@ + b@ + c@,
{
    let mut s: String = a.to_owned();
    s.append(b);
    s.append(c);
    s
}

/// Removes the line breaks of a text.
pub fn strip_breaks(s: &str) -> (r: String)
    ensures
        r@ == without_breaks(s@),
{
    let v = chars_of(s);
    let ghost keep = |c: char| !is_break(c);
    let mut out: String = String::new();
    proof {
        reveal(Seq::filter);
        assert(s@.take(0).filter(keep) =~= Seq::<char>::empty());
    }
    for i in 0..v.len()
        invariant
            v@ == s@,
            keep == (|c: char| !is_break(c)),
            out@ == s@.take(i as int).filter(keep),
    {
        let c = v[i];
        if c != '\r' && c != '\n' {
            out.push(c);
        }
        proof {
            reveal(Seq::filter);
            assert(s@.take(i + 1).drop_last() =~= s@.take(i as int));
        }
    }
    assert(s@.take(s@.len() as int) =~= s@);
    out
}

/// The script line that exports one variable.
pub fn show_export(name: &str, value: &str) -> (r: String)
    ensures
        r@ == export_line(name@, value@),
{
    let clean = strip_breaks(value);
    proof {
        reveal_strlit("'");
        reveal_strlit("'\\''");
        assert("'"@ =~= seq!['\'']);
        assert("'\\''"@ =~= seq!['\'', '\\', '\'', '\'']);
    }
    let body = replace_all(clean.as_str(), "'", "'\\''");
    let mut s: String = concat3("export ", name, "='");
    s.append(body.as_str());
    s.append("'");
    s
}

/// The command that closes a pane.
pub fn show_kill(pane: u64) -> (r: String)
    ensures
        r@ == kill_command(pane),
{
    let mut s: String = "wezterm cli kill-pane --pane-id ".to_owned();
    s.append(show_u64(pane).as_str());
    s
}

/// The `remain-on-exit` policy of a pane.
pub fn pane_policy(state: &State, pane: u64) -> (r: String)
    ensures
        r@ == policy_of(state@, pane),
{
    match state.remain_on_exit.get(&pane) {
        Some(value) => value.clone(),
        None => "off".to_owned(),
    }
}

/// The bash script that runs `command` in a pane.
pub fn respawn_script(state: &State, pane: u64, command: &str) -> (r: String)
    ensures
        r@ == script_text(state@, pane, command@),
{
    let mut lines: Vec<String> = Vec::new();
    lines.push("#!/usr/bin/env bash".to_owned());
    let vars = state.env_vars.entries();
    let ghost exports = export_lines(state@);
    let ghost head = seq!["#!/usr/bin/env bash"@];
    assert(texts(lines@) =~= head + exports.take(0));
    for i in 0..vars.len()
        invariant
            exports == export_lines(state@),
            vars@.len() == state@.env_names.len(),
            forall|j: int|
                #![trigger vars@[j]]
                0 <= j < vars@.len() ==> vars@[j].0@ == state.env_vars.names()[j]
                    && state.env_vars@.contains_key(vars@[j].0@)
                    && state.env_vars@[vars@[j].0@] == vars@[j].1,
            texts(lines@) == head + exports.take(i as int),
    {
        let ghost before = texts(lines@);
        lines.push(show_export(vars[i].0.as_str(), vars[i].1.as_str()));
        proof {
            assert(texts(lines@) =~= before.push(exports[i as int]));
            assert(texts(lines@) =~= head + exports.take(i + 1));
        }
    }
    let ghost before = texts(lines@);
    assert(before =~= head + exports);
    lines.push(command.to_owned());
    lines.push("rc=$?".to_owned());
    let ghost middle = before + seq![command@, "rc=$?"@];
    assert(texts(lines@) =~= middle);
    let policy = pane_policy(state, pane);
    if same(policy.as_str(), "on") {
        assert(texts(lines@) =~= script_lines(state@, pane, command@));
    } else if same(policy.as_str(), "failed") {
        lines.push(concat3("if [ \"$rc\" -eq 0 ]; then ", show_kill(pane).as_str(), "; fi"));
        assert(texts(lines@) =~= script_lines(state@, pane, command@));
    } else {
        lines.push(show_kill(pane));
        assert(texts(lines@) =~= script_lines(state@, pane, command@));
    }
    let mut content = join(lines.as_slice(), "\n");
    content.append("\n");
    content
}

/// The batch file that runs a bash script.
pub fn wrapper_script(bash: &str, script: &str) -> (r: String)
    ensures
        r@ == wrapper_text(bash@, script@),
{
    let mut s: String = concat3("@echo off\r\n\"", bash, "\" \"");
    s.append(script);
    s.append("\"\r\n");
    s
}

/// The name of the bash script for a pane.
pub fn script_file(pane: u64) -> (r: String)
    ensures
        r@ == script_name(pane),
{
    concat3("respawn_", show_u64(pane).as_str(), ".sh")
}

/// The name of the batch file for a pane.
pub fn wrapper_file(pane: u64) -> (r: String)
    ensures
        r@ == wrapper_name(pane),
{
    concat3("respawn_", show_u64(pane).as_str(), ".cmd")
}

} // verus!
