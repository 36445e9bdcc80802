//! Live panes, the current pane, and targets.

use crate::state::{State, StateView};
use crate::text::{decimal, opt_text, parse_u64, parsed_u64, show_u64};
use vstd::prelude::*;

verus! {

/// A live WezTerm pane.
#[derive(Clone, Copy, Debug, PartialEq, Eq, Structural)]
pub struct WezPane {
    pub pane_id: u64,
    pub window_id: u64,
    pub tab_id: u64,
}

/// The first pane that satisfies a condition.
pub open spec fn first_where(
    panes: Seq<WezPane>,
    wanted: spec_fn(WezPane) -> bool,
) -> Option<WezPane>
    decreases panes.len(),
{
    if panes.len() == 0 {
        None
    } else if wanted(panes[0]) {
        Some(panes[0])
    } else {
        first_where(panes.skip(1), wanted)
    }
}

/// The first pane that satisfies a condition is one of the panes and does
/// satisfy it; there is none only where no pane satisfies it.
pub proof fn lemma_first_where(panes: Seq<WezPane>, wanted: spec_fn(WezPane) -> bool)
    ensures
        match first_where(panes, wanted) {
            Some(p) => panes.contains(p) && wanted(p),
            None => forall|i: int| 0 <= i < panes.len() ==> !wanted(#[trigger] panes[i]),
        },
    decreases panes.len(),
{
    if panes.len() > 0 {
        let rest = panes.skip(1);
        lemma_first_where(rest, wanted);
        match first_where(rest, wanted) {
            Some(p) => {
                let i = choose|i: int| 0 <= i < rest.len() && rest[i] == p;
                assert(panes[i + 1] == p);
            },
            None => {
                assert forall|i: int| 0 < i < panes.len() implies !wanted(#[trigger] panes[i]) by {
                    assert(rest[i - 1] == panes[i]);
                }
            },
        }
    }
}

/// The pane with a given id.
pub open spec fn pane_with_id(panes: Seq<WezPane>, pane_id: u64) -> Option<WezPane> {
    first_where(panes, |p: WezPane| p.pane_id == pane_id)
}

/// The first pane of a window.
pub open spec fn pane_in_window(panes: Seq<WezPane>, window_id: u64) -> Option<WezPane> {
    first_where(panes, |p: WezPane| p.window_id == window_id)
}

/// The first pane of all.
pub open spec fn first_pane(panes: Seq<WezPane>) -> Option<WezPane> {
    if panes.len() > 0 {
        Some(panes[0])
    } else {
        None
    }
}

/// The window id of a pane as tmux writes it, such as `@0`; `@0` without one.
pub open spec fn window_text(pane: Option<WezPane>) -> Seq<char> {
    match pane {
        Some(p) => seq!['@'] + decimal(p.window_id as nat),
        None => seq!['@', '0'],
    }
}

/// The live panes: those that WezTerm listed, or none if its answer could not
/// be read.
pub fn live_panes(read: Option<Vec<WezPane>>) -> (r: Vec<WezPane>)
    ensures
        r@ == (match read {
            Some(panes) => panes@,
            None => Seq::empty(),
        }),
{
    match read {
        Some(panes) => panes,
        None => Vec::new(),
    }
}

/// Finds the pane with a given id.
pub fn find_pane(panes: &[WezPane], pane_id: u64) -> (r: Option<WezPane>)
    ensures
        r == pane_with_id(panes@, pane_id),
{
    let ghost wanted = |p: WezPane| p.pane_id == pane_id;
    assert(panes@.skip(0) =~= panes@);
    for i in 0..panes.len()
        invariant
            wanted == (|p: WezPane| p.pane_id == pane_id),
            first_where(panes@, wanted) == first_where(panes@.skip(i as int), wanted),
    {
        if panes[i].pane_id == pane_id {
            return Some(panes[i]);
        }
        assert(panes@.skip(i as int).skip(1) =~= panes@.skip(i + 1));
    }
    None
}

/// Finds the first pane of a window.
pub fn find_in_window(panes: &[WezPane], window_id: u64) -> (r: Option<WezPane>)
    ensures
        r == pane_in_window(panes@, window_id),
{
    let ghost wanted = |p: WezPane| p.window_id == window_id;
    assert(panes@.skip(0) =~= panes@);
    for i in 0..panes.len()
        invariant
            wanted == (|p: WezPane| p.window_id == window_id),
            first_where(panes@, wanted) == first_where(panes@.skip(i as int), wanted),
    {
        if panes[i].window_id == window_id {
            return Some(panes[i]);
        }
        assert(panes@.skip(i as int).skip(1) =~= panes@.skip(i + 1));
    }
    None
}

/// The first pane of all.
pub fn front_pane(panes: &[WezPane]) -> (r: Option<WezPane>)
    ensures
        r == first_pane(panes@),
{
    if panes.len() > 0 {
        Some(panes[0])
    } else {
        None
    }
}

/// Writes the window id of a pane.
pub fn show_window(pane: Option<WezPane>) -> (r: String)
    ensures
        r@ == window_text(pane),
{
    let mut s: String = String::new();
    s.push('@');
    match pane {
        Some(p) => {
            s.append(show_u64(p.window_id).as_str());
        },
        None => {
            s.push('0');
        },
    }
    assert(s@ =~= window_text(pane));
    s
}

// ------------------------------------------------------------- current pane

/// The environment variables that name the current pane.
pub struct Env {
    /// `WEZTERM_PANE`: the WezTerm pane this process runs in
    pub wezterm_pane: Option<String>,
    /// `TMUX_PANE`: the tmux pane id the caller believes it is in
    pub tmux_pane: Option<String>,
}

/// The model of [`Env`].
pub struct EnvView {
    pub wezterm_pane: Option<Seq<char>>,
    pub tmux_pane: Option<Seq<char>>,
}

impl View for Env {
    type V = EnvView;

    open spec fn view(&self) -> EnvView {
        EnvView {
            wezterm_pane: opt_text(self.wezterm_pane),
            tmux_pane: opt_text(self.tmux_pane),
        }
    }
}

impl EnvView {
    /// The WezTerm pane that `WEZTERM_PANE` names, if it holds a number.
    pub open spec fn real_pane(self) -> Option<u64> {
        match self.wezterm_pane {
            Some(t) => parsed_u64(t),
            None => None,
        }
    }

    /// The tmux pane id in `TMUX_PANE`, if it is set and not empty.
    pub open spec fn claimed_id(self) -> Option<Seq<char>> {
        match self.tmux_pane {
            Some(t) if t.len() > 0 => Some(t),
            _ => None,
        }
    }

    /// The tmux id of the current pane: the claimed one, or else the one that
    /// the real pane (pane 0 if that is unknown) has or gets.
    pub open spec fn current_id(self, s: StateView) -> Seq<char> {
        match (self.real_pane(), self.claimed_id()) {
            (_, Some(tid)) => tid,
            (Some(wid), None) => s.id_of(wid),
            (None, None) => s.id_of(0),
        }
    }

    /// The state once the current pane is known: a claimed id is made to mean
    /// the real pane, and a pane without an id gets one.
    pub open spec fn current_state(self, s: StateView) -> StateView {
        match (self.real_pane(), self.claimed_id()) {
            (Some(wid), Some(tid)) => s.bind(tid, wid),
            (Some(wid), None) => s.with_id_for(wid),
            (None, Some(tid)) => s,
            (None, None) => s.with_id_for(0),
        }
    }
}

/// The WezTerm pane that `WEZTERM_PANE` names, if it holds a number.
pub fn real_pane(env: &Env) -> (r: Option<u64>)
    ensures
        r == env@.real_pane(),
{
    match &env.wezterm_pane {
        Some(t) => parse_u64(t.as_str()),
        None => None,
    }
}

/// The live pane that `WEZTERM_PANE` names.
pub fn find_host_pane(env: &Env, panes: &[WezPane]) -> (r: Option<WezPane>)
    ensures
        r == host_pane(env@, panes@),
{
    match real_pane(env) {
        Some(w) => find_pane(panes, w),
        None => None,
    }
}

/// The tmux id of the current pane. `WEZTERM_PANE` decides which pane that is.
pub fn resolve_current_pane(state: &mut State, env: &Env) -> (r: String)
    ensures
        r@ == env@.current_id(old(state)@),
        final(state)@ == env@.current_state(old(state)@),
{
    let claimed: Option<String> = match &env.tmux_pane {
        Some(t) => if t.as_str().is_empty() {
            None
        } else {
            Some(t.clone())
        },
        None => None,
    };
    if let Some(wid) = real_pane(env) {
        if let Some(tid) = claimed {
            state.bind_pane(tid.as_str(), wid);
            return tid;
        }
        return state.tmux_id_for_wez(wid);
    }
    if let Some(tid) = claimed {
        return tid;
    }
    state.tmux_id_for_wez(0)
}

// -------------------------------------------------------------------- targets

/// Whether a target is a tmux pane id.
pub open spec fn is_pane_id(target: Seq<char>) -> bool {
    target.len() > 0 && target[0] == '%'
}

/// Whether a target is neither a tmux pane id nor a WezTerm pane number, so
/// that the live panes are needed to resolve it.
pub open spec fn is_name(target: Seq<char>) -> bool {
    !is_pane_id(target) && parsed_u64(target) is None
}

/// The live pane that `WEZTERM_PANE` names.
pub open spec fn host_pane(env: EnvView, panes: Seq<WezPane>) -> Option<WezPane> {
    match env.real_pane() {
        Some(w) => pane_with_id(panes, w),
        None => None,
    }
}

/// The pane that a session or window name stands for: the first one in the
/// window of the pane that `WEZTERM_PANE` names, or else the first one of all.
pub open spec fn named_pane(env: EnvView, panes: Seq<WezPane>) -> Option<u64> {
    let chosen = match host_pane(env, panes) {
        Some(p) => pane_in_window(panes, p.window_id),
        None => first_pane(panes),
    };
    match chosen {
        Some(p) => Some(p.pane_id),
        None => None,
    }
}

/// The WezTerm pane that a target stands for.
pub open spec fn target_pane(
    target: Seq<char>,
    env: EnvView,
    s: StateView,
    panes: Seq<WezPane>,
) -> Option<u64> {
    if is_pane_id(target) {
        s.wez_of(target)
    } else if parsed_u64(target) is Some {
        parsed_u64(target)
    } else {
        named_pane(env, panes)
    }
}

/// The state once a target has been resolved: a name brings in the current
/// pane.
pub open spec fn target_state(target: Seq<char>, env: EnvView, s: StateView) -> StateView {
    if is_name(target) {
        env.current_state(s)
    } else {
        s
    }
}

fn pane_id_form(target: &str) -> (r: bool)
    ensures
        r == is_pane_id(target@),
{
    target.unicode_len() > 0 && target.get_char(0) == '%'
}

/// Whether the live panes are needed to resolve a target.
pub fn needs_panes(target: &str) -> (r: bool)
    ensures
        r == is_name(target@),
{
    !pane_id_form(target) && parse_u64(target).is_none()
}

/// Resolves a target to a WezTerm pane. `panes` are the live panes; they
/// matter only if [`needs_panes`] says so.
pub fn resolve_target(target: &str, state: &mut State, env: &Env, panes: &[WezPane]) -> (r: Option<
    u64,
>)
    ensures
        r == target_pane(target@, env@, old(state)@, panes@),
        final(state)@ == target_state(target@, env@, old(state)@),
{
    if pane_id_form(target) {
        return state.wez_id_for_tmux(target);
    }
    if let Some(n) = parse_u64(target) {
        return Some(n);
    }
    let _ = resolve_current_pane(state, env);
    if let Some(host) = find_host_pane(env, panes) {
        proof {
            lemma_first_where(panes@, |p: WezPane| p.pane_id == env@.real_pane()->0);
            lemma_first_where(panes@, |p: WezPane| p.window_id == host.window_id);
        }
        if let Some(p) = find_in_window(panes, host.window_id) {
            return Some(p.pane_id);
        }
    }
    match front_pane(panes) {
        Some(p) => Some(p.pane_id),
        None => None,
    }
}

} // verus!
