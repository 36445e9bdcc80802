//! Substitution of `#{token}` placeholders in format strings.

use crate::text::{lemma_replaced_absent, occurs, replace_all, replaced};
use vstd::prelude::*;

verus! {

/// The contents of an optional string slice.
pub open spec fn opt_str(s: Option<&str>) -> Option<Seq<char>> {
    match s {
        Some(t) => Some(t@),
        None => None,
    }
}

/// `s` with `token` replaced by `value`, where there is one.
pub open spec fn substituted(s: Seq<char>, token: Seq<char>, value: Option<Seq<char>>) -> Seq<char> {
    match value {
        Some(v) => replaced(s, token, v),
        None => s,
    }
}

/// A format string with its placeholders filled in, one kind after the other.
pub open spec fn formatted(
    fmt: Seq<char>,
    pane_id: Option<Seq<char>>,
    window_id: Option<Seq<char>>,
) -> Seq<char> {
    let with_pane = substituted(fmt, "#{pane_id}"@, pane_id);
    let with_window = substituted(with_pane, "#{window_id}"@, window_id);
    let with_term = replaced(with_window, "#{client_termtype}"@, "tmux-256color"@);
    replaced(with_term, "#{client_control_mode}"@, "0"@)
}

/// Fills in the placeholders of a format string. `pane_id` is a tmux pane id
/// such as `%3`, `window_id` a window id such as `@0`.
pub fn apply_format(fmt: &str, pane_id: Option<&str>, window_id: Option<&str>) -> (r: String)
    ensures
        r@ == formatted(fmt@, opt_str(pane_id), opt_str(window_id)),
{
    proof {
        reveal_strlit("#{pane_id}");
        reveal_strlit("#{window_id}");
        reveal_strlit("#{client_termtype}");
        reveal_strlit("#{client_control_mode}");
    }
    let mut out: String = fmt.to_owned();
    if let Some(pid) = pane_id {
        out = replace_all(out.as_str(), "#{pane_id}", pid);
    }
    if let Some(wid) = window_id {
        out = replace_all(out.as_str(), "#{window_id}", wid);
    }
    out = replace_all(out.as_str(), "#{client_termtype}", "tmux-256color");
    replace_all(out.as_str(), "#{client_control_mode}", "0")
}

/// A format string without any of the known placeholders comes out unchanged,
/// so unknown placeholders are left as they are.
pub proof fn law_unknown_tokens_stay(
    fmt: Seq<char>,
    pane_id: Option<Seq<char>>,
    window_id: Option<Seq<char>>,
)
    requires
        !occurs(fmt, "#{pane_id}"@),
        !occurs(fmt, "#{window_id}"@),
        !occurs(fmt, "#{client_termtype}"@),
        !occurs(fmt, "#{client_control_mode}"@),
    ensures
        formatted(fmt, pane_id, window_id) == fmt,
{
    if let Some(pid) = pane_id {
        lemma_replaced_absent(fmt, "#{pane_id}"@, pid);
    }
    if let Some(wid) = window_id {
        lemma_replaced_absent(fmt, "#{window_id}"@, wid);
    }
    lemma_replaced_absent(fmt, "#{client_termtype}"@, "tmux-256color"@);
    lemma_replaced_absent(fmt, "#{client_control_mode}"@, "0"@);
}

} // verus!
