//! Which panes targets reach.

use crate::format::formatted;
use crate::goals::window_panes;
use crate::laws::pairing::{law_giving_ids_keeps_order, law_id_leads_back};
use crate::laws::steps::lemma_window_panes;
use crate::panes::{
    first_pane, first_where, host_pane, is_name, lemma_first_where, pane_in_window, pane_with_id,
    target_pane, target_state, window_text, EnvView, WezPane,
};
use crate::resume::{
    listed_lines, listed_state, new_pane_id, pane_line, panes_outcome, shown_panes, split_done,
    window_filter,
};
use crate::state::{tmux_id, StateView};
use crate::text::{decimal, lemma_decimal_digits, lemma_parse_decimal, parsed_u64};
use crate::turn::{EffectView, OnPanes};
use vstd::prelude::*;

verus! {

/// The current pane is the one that `WEZTERM_PANE` names, whatever `TMUX_PANE`
/// was paired with before.
pub proof fn law_current_is_the_real_pane(env: EnvView, s: StateView, w: u64)
    requires
        env.claimed_id() is Some || s.reachable(w),
        env.real_pane() == Some(w),
    ensures
        env.current_state(s).wez_of(env.current_id(s)) == Some(w),
        env.current_state(s).id_of(w) == env.current_id(s),
{
    if env.claimed_id() is None {
        law_id_leads_back(s, w);
    }
}

/// A session or window name reaches a live pane in the window of the pane that
/// `WEZTERM_PANE` names.
pub proof fn law_names_stay_in_the_window(
    target: Seq<char>,
    env: EnvView,
    s: StateView,
    panes: Seq<WezPane>,
)
    requires
        is_name(target),
        host_pane(env, panes) is Some,
    ensures
        exists|p: WezPane| #[trigger]
            panes.contains(p) && p.window_id == host_pane(env, panes)->0.window_id && target_pane(
                target,
                env,
                s,
                panes,
            ) == Some(p.pane_id),
{
    let w = env.real_pane()->0;
    let here = host_pane(env, panes)->0;
    lemma_first_where(panes, |p: WezPane| p.pane_id == w);
    lemma_first_where(panes, |p: WezPane| p.window_id == here.window_id);
    let p = pane_in_window(panes, here.window_id)->0;
    assert(panes.contains(p));
}

/// A session or window name reaches the first pane of all if `WEZTERM_PANE` is
/// missing or names no live pane, whatever `TMUX_PANE` holds.
pub proof fn law_names_fall_back(
    target: Seq<char>,
    env: EnvView,
    s: StateView,
    panes: Seq<WezPane>,
)
    requires
        is_name(target),
        forall|i: int|
            0 <= i < panes.len() ==> env.real_pane() != Some((#[trigger] panes[i]).pane_id),
    ensures
        target_pane(target, env, s, panes) == (if panes.len() > 0 {
            Some(panes[0].pane_id)
        } else {
            None
        }),
{
    if let Some(w) = env.real_pane() {
        lemma_first_where(panes, |p: WezPane| p.pane_id == w);
    }
}

/// A target that is not a name does not depend on which panes are live.
pub proof fn law_ids_need_no_panes(
    target: Seq<char>,
    env: EnvView,
    s: StateView,
    panes: Seq<WezPane>,
    other_panes: Seq<WezPane>,
)
    requires
        !is_name(target),
    ensures
        target_pane(target, env, s, panes) == target_pane(target, env, s, other_panes),
{
}

/// Ids as the shim writes them are targets: a tmux pane id for its pane, a bare
/// number for the WezTerm pane of that number.
pub proof fn law_written_ids_are_targets(
    env: EnvView,
    s: StateView,
    panes: Seq<WezPane>,
    n: u64,
)
    ensures
        target_pane(tmux_id(n), env, s, panes) == s.wez_of(tmux_id(n)),
        target_pane(decimal(n as nat), env, s, panes) == Some(n),
{
    lemma_parse_decimal(n);
    lemma_decimal_digits(n as nat);
    assert(decimal(n as nat)[0] != '%');
}

/// A window id as the shim writes it names that window.
pub proof fn law_written_windows_are_targets(p: WezPane)
    ensures
        window_filter(window_text(Some(p))) == Some(p.window_id),
{
    lemma_parse_decimal(p.window_id);
    assert(seq!['@'].is_prefix_of(window_text(Some(p))));
    assert(window_text(Some(p)).skip(1) =~= decimal(p.window_id as nat));
}

/// A listing for a window shows the live panes of that window, and no others.
pub proof fn law_listing_shows_the_window(p: WezPane, panes: Seq<WezPane>)
    ensures
        shown_panes(window_text(Some(p)), panes) == window_panes(panes, p.window_id),
        forall|q: WezPane| #[trigger]
            shown_panes(window_text(Some(p)), panes).contains(q) <==> panes.contains(q)
                && q.window_id == p.window_id,
{
    law_written_windows_are_targets(p);
    lemma_window_panes(panes, p.window_id);
}

/// A listing has one line per pane shown, in order, and marks the current pane
/// and no other.
pub proof fn law_listing_has_a_line_per_pane(
    s: StateView,
    format: Seq<char>,
    current: Option<u64>,
    panes: Seq<WezPane>,
    i: int,
)
    requires
        0 <= i < panes.len(),
    ensures
        listed_lines(s, format, current, panes).len() == panes.len(),
        listed_lines(s, format, current, panes)[i] == EffectView::Line(
            pane_line(
                format,
                listed_state(s, panes.take(i)).id_of(panes[i].pane_id),
                panes[i],
                current == Some(panes[i].pane_id),
            ),
        ),
    decreases panes.len(),
{
    if i == panes.len() - 1 {
        assert(panes.take(i) =~= panes.drop_last());
        if i > 0 {
            law_listing_has_a_line_per_pane(s, format, current, panes.drop_last(), 0);
        } else {
            assert(listed_lines(s, format, current, panes.drop_last()).len() == 0);
        }
    } else {
        law_listing_has_a_line_per_pane(s, format, current, panes.drop_last(), i);
        assert(panes.drop_last().take(i) =~= panes.take(i));
    }
}

/// The ids in a listing lead back to the panes they stand for.
pub proof fn law_listed_ids_lead_back(s: StateView, panes: Seq<WezPane>, i: int)
    requires
        s.paired(),
        s.ahead(),
        s.next_pane + panes.len() < u64::MAX,
        0 <= i < panes.len(),
    ensures
        listed_state(s, panes).paired(),
        listed_state(s, panes).ahead(),
        listed_state(s, panes).next_pane <= s.next_pane + panes.len(),
        listed_state(s, panes).wez_of(
            listed_state(s, panes.take(i)).id_of(panes[i].pane_id),
        ) == Some(panes[i].pane_id),
    decreases panes.len(),
{
    let init = panes.drop_last();
    let before = listed_state(s, init);
    if init.len() > 0 {
        law_listed_ids_lead_back(
            s,
            init,
            if i < init.len() {
                i
            } else {
                0
            },
        );
    }
    law_giving_ids_keeps_order(before, panes.last().pane_id);
    law_id_leads_back(before, panes.last().pane_id);
    if i < init.len() {
        assert(init.take(i) =~= panes.take(i));
        let id = listed_state(s, panes.take(i)).id_of(panes[i].pane_id);
        assert(before.tmux_to_wez.contains_key(id));
    } else {
        assert(panes.take(i) =~= init);
    }
}

/// A listing marks the pane that `WEZTERM_PANE` names and no other.
pub proof fn law_listing_marks_the_real_pane(
    target: Seq<char>,
    format: Seq<char>,
    panes: Seq<WezPane>,
    env: EnvView,
    s: StateView,
    i: int,
)
    requires
        0 <= i < shown_panes(target, panes).len(),
    ensures
        ({
            let shown = shown_panes(target, panes);
            let now = env.current_state(s);
            panes_outcome(OnPanes::Listing { target, format }, panes, env, s).turn.effects[i]
                == EffectView::Line(
                pane_line(
                    format,
                    listed_state(now, shown.take(i)).id_of(shown[i].pane_id),
                    shown[i],
                    env.real_pane() == Some(shown[i].pane_id),
                ),
            )
        }),
{
    law_listing_has_a_line_per_pane(
        env.current_state(s),
        format,
        env.real_pane(),
        shown_panes(target, panes),
        i,
    );
}

/// A message names the window of the pane that `WEZTERM_PANE` names, if that
/// pane is live, and the window of the first pane otherwise.
pub proof fn law_message_names_the_window(
    env: EnvView,
    s: StateView,
    panes: Seq<WezPane>,
    current: Seq<char>,
    format: Seq<char>,
)
    ensures
        panes_outcome(OnPanes::Message { current, format }, panes, env, s).turn.effects[0]
            == EffectView::Line(
            formatted(
                format,
                Some(current),
                Some(
                    window_text(
                        if host_pane(env, panes) is Some {
                            host_pane(env, panes)
                        } else {
                            first_pane(panes)
                        },
                    ),
                ),
            ),
        ),
{
}

/// The id shown for a pane that a split made reaches that pane.
pub proof fn law_split_panes_are_targets(
    print: bool,
    format: Seq<char>,
    stdout: Seq<char>,
    exit: i32,
    s: StateView,
    w: u64,
)
    requires
        s.reachable(w),
        new_pane_id(stdout) == Some(w),
    ensures
        split_done(print, format, stdout, exit, s).state.wez_of(s.id_of(w)) == Some(w),
{
    law_id_leads_back(s, w);
}

// ------------------------------------------------------ what targets stand for

/// The pane with an id is the first live pane that has it; there is none only
/// where no live pane has it.
pub proof fn law_panes_are_found_by_id(panes: Seq<WezPane>, id: u64)
    ensures
        match pane_with_id(panes, id) {
            Some(p) => exists|i: int|
                0 <= i < panes.len() && #[trigger] panes[i] == p && p.pane_id == id && forall|
                    j: int,
                |
                    0 <= j < i ==> (#[trigger] panes[j]).pane_id != id,
            None => forall|i: int| 0 <= i < panes.len() ==> (#[trigger] panes[i]).pane_id != id,
        },
{
    lemma_first_of_all(panes, |p: WezPane| p.pane_id == id);
}

/// The pane of a window is the first live pane in it; there is none only where
/// no live pane is in it.
pub proof fn law_panes_are_found_by_window(panes: Seq<WezPane>, window: u64)
    ensures
        match pane_in_window(panes, window) {
            Some(p) => exists|i: int|
                0 <= i < panes.len() && #[trigger] panes[i] == p && p.window_id == window
                    && forall|j: int| 0 <= j < i ==> (#[trigger] panes[j]).window_id != window,
            None => forall|i: int|
                0 <= i < panes.len() ==> (#[trigger] panes[i]).window_id != window,
        },
{
    lemma_first_of_all(panes, |p: WezPane| p.window_id == window);
}

proof fn lemma_first_of_all(panes: Seq<WezPane>, wanted: spec_fn(WezPane) -> bool)
    ensures
        match first_where(panes, wanted) {
            Some(p) => exists|i: int|
                0 <= i < panes.len() && #[trigger] panes[i] == p && wanted(p) && forall|j: int|
                    0 <= j < i ==> !wanted(#[trigger] panes[j]),
            None => forall|i: int| 0 <= i < panes.len() ==> !wanted(#[trigger] panes[i]),
        },
    decreases panes.len(),
{
    if panes.len() > 0 {
        if wanted(panes[0]) {
            assert(panes[0] == first_where(panes, wanted)->0);
        } else {
            let rest = panes.skip(1);
            lemma_first_of_all(rest, wanted);
            match first_where(rest, wanted) {
                Some(p) => {
                    let i = choose|i: int|
                        0 <= i < rest.len() && #[trigger] rest[i] == p && wanted(p) && forall|
                            j: int,
                        |
                            0 <= j < i ==> !wanted(#[trigger] rest[j]);
                    assert(panes[i + 1] == p);
                    assert forall|j: int| 0 <= j < i + 1 implies !wanted(#[trigger] panes[j]) by {
                        if j > 0 {
                            assert(rest[j - 1] == panes[j]);
                        }
                    }
                },
                None => {
                    assert forall|i: int| 0 <= i < panes.len() implies !wanted(
                        #[trigger] panes[i],
                    ) by {
                        if i > 0 {
                            assert(rest[i - 1] == panes[i]);
                        }
                    }
                },
            }
        }
    }
}

/// `WEZTERM_PANE` names a pane where it holds a number, `TMUX_PANE` an id where
/// it holds anything. The live pane that `WEZTERM_PANE` names is found by that
/// number.
pub proof fn law_environment(env: EnvView, panes: Seq<WezPane>)
    ensures
        env.wezterm_pane is None ==> env.real_pane() is None,
        env.wezterm_pane matches Some(t) ==> env.real_pane() == parsed_u64(t),
        env.tmux_pane is None ==> env.claimed_id() is None,
        env.tmux_pane matches Some(t) ==> env.claimed_id() == (if t.len() == 0 {
            None
        } else {
            Some(t)
        }),
        env.real_pane() is None ==> host_pane(env, panes) is None,
        env.real_pane() matches Some(w) ==> host_pane(env, panes) == pane_with_id(panes, w),
{
}

/// The id of the current pane is the one in `TMUX_PANE`, if there is one, and is
/// then bound to the pane that `WEZTERM_PANE` names. Otherwise it is the id that
/// this pane, or pane 0 if none is named, has or gets.
pub proof fn law_current_pane(env: EnvView, s: StateView)
    ensures
        env.claimed_id() matches Some(t) ==> env.current_id(s) == t && env.current_state(s) == (
        match env.real_pane() {
            Some(w) => s.bind(t, w),
            None => s,
        }),
        env.claimed_id() is None ==> {
            let w = match env.real_pane() {
                Some(w) => w,
                None => 0,
            };
            env.current_id(s) == s.id_of(w) && env.current_state(s) == s.with_id_for(w)
        },
{
}

/// A target that begins with a percent sign is looked up among the ids, one that
/// is a number is that pane, and only the others are names. Names alone bring in
/// the current pane.
pub proof fn law_kinds_of_targets(
    target: Seq<char>,
    env: EnvView,
    s: StateView,
    panes: Seq<WezPane>,
)
    ensures
        target.len() > 0 && target[0] == '%' ==> !is_name(target) && target_pane(
            target,
            env,
            s,
            panes,
        ) == s.wez_of(target) && target_state(target, env, s) == s,
        (target.len() == 0 || target[0] != '%') && parsed_u64(target) is Some ==> !is_name(target)
            && target_pane(target, env, s, panes) == parsed_u64(target) && target_state(
            target,
            env,
            s,
        ) == s,
        (target.len() == 0 || target[0] != '%') && parsed_u64(target) is None ==> is_name(target)
            && target_state(target, env, s) == env.current_state(s) && target_pane(
            target,
            env,
            s,
            panes,
        ) == (match host_pane(env, panes) {
            Some(p) => match pane_in_window(panes, p.window_id) {
                Some(q) => Some(q.pane_id),
                None => None,
            },
            None => if panes.len() > 0 {
                Some(panes[0].pane_id)
            } else {
                None
            },
        }),
{
}

/// A window is shown as an at sign and its number, and as `@0` without a pane.
pub proof fn law_windows_are_numbers(p: WezPane)
    ensures
        window_text(Some(p)) == "@"@ + decimal(p.window_id as nat),
        window_text(None) == "@0"@,
{
    reveal_strlit("@");
    reveal_strlit("@0");
    assert("@"@ =~= seq!['@']);
    assert("@0"@ =~= seq!['@', '0']);
}

} // verus!
