//! How tmux pane ids and WezTerm panes stay paired.

use crate::state::{tmux_id, StateView};
use crate::table::lists;
use crate::text::{decimal, lemma_decimal_injective};
use vstd::prelude::*;

verus! {

impl StateView {
    /// Every tmux pane id leads to a pane that has that id.
    pub open spec fn backed(self) -> bool {
        forall|t: Seq<char>| #[trigger]
            self.tmux_to_wez.contains_key(t) ==> self.wez_to_tmux.contains_key(self.tmux_to_wez[t])
                && self.wez_to_tmux[self.tmux_to_wez[t]] == t
    }

    /// The id of a pane, if it has one, leads back to it.
    pub open spec fn reachable(self, w: u64) -> bool {
        self.wez_to_tmux.contains_key(w) ==> self.wez_of(self.wez_to_tmux[w]) == Some(w)
    }

    /// The two directions of the pairing agree.
    pub open spec fn paired(self) -> bool {
        &&& self.backed()
        &&& forall|w: u64| #[trigger]
            self.wez_to_tmux.contains_key(w) ==> self.tmux_to_wez.contains_key(self.wez_to_tmux[w])
                && self.tmux_to_wez[self.wez_to_tmux[w]] == w
    }

    /// No id that is still to be given out is in use.
    pub open spec fn ahead(self) -> bool {
        forall|n: u64|
            self.next_pane <= n ==> !self.tmux_to_wez.contains_key(#[trigger] tmux_id(n))
    }

    /// The names of the stored variables are listed, each once.
    pub open spec fn env_listed(self) -> bool {
        lists(self.env_names, self.env_vars)
    }
}

/// Different numbers make different tmux pane ids.
pub proof fn lemma_tmux_id_injective(a: u64, b: u64)
    requires
        tmux_id(a) == tmux_id(b),
    ensures
        a == b,
{
    assert(tmux_id(a).skip(1) =~= decimal(a as nat));
    assert(tmux_id(b).skip(1) =~= decimal(b as nat));
    lemma_decimal_injective(a as nat, b as nat);
}

/// With nothing remembered, everything is in order.
pub proof fn law_empty_in_order()
    ensures
        StateView::empty().backed(),
        StateView::empty().paired(),
        StateView::empty().ahead(),
        StateView::empty().env_listed(),
{
}

/// A pane that has an id keeps it: asking again changes nothing.
pub proof fn law_id_is_stable(s: StateView, w: u64)
    ensures
        s.with_id_for(w).id_of(w) == s.id_of(w),
        s.with_id_for(w).with_id_for(w) == s.with_id_for(w),
{
}

/// Two ids never lead to the same pane.
pub proof fn law_ids_lead_apart(s: StateView, t: Seq<char>, u: Seq<char>)
    requires
        s.backed(),
        t != u,
        s.wez_of(t) is Some,
    ensures
        s.wez_of(t) != s.wez_of(u),
{
}

/// Whatever is done to the pairing, every id keeps leading to a pane that has
/// that id.
pub proof fn law_ids_stay_backed(s: StateView, t: Seq<char>, w: u64)
    requires
        s.backed(),
    ensures
        s.with_id_for(w).backed(),
        s.advance().backed(),
        s.bind(t, w).backed(),
        s.forget(w).backed(),
{
}

/// The id that a pane has or gets leads back to it.
pub proof fn law_id_leads_back(s: StateView, w: u64)
    requires
        s.reachable(w),
    ensures
        s.with_id_for(w).wez_of(s.id_of(w)) == Some(w),
{
}

/// A pane that had no id gets one that nothing else has.
pub proof fn law_new_id_is_new(s: StateView, w: u64)
    requires
        s.ahead(),
        !s.wez_to_tmux.contains_key(w),
    ensures
        s.wez_of(s.id_of(w)) is None,
{
}

/// Two panes never get the same id.
pub proof fn law_ids_differ(s: StateView, v: u64, w: u64)
    requires
        s.paired(),
        s.ahead(),
        s.next_pane < u64::MAX,
        v != w,
    ensures
        s.id_of(v) != s.with_id_for(v).id_of(w),
{
    let n = s.next_pane;
    if tmux_id(n) == tmux_id((n + 1) as u64) {
        lemma_tmux_id_injective(n, (n + 1) as u64);
    }
    assert(!s.tmux_to_wez.contains_key(tmux_id(n)));
}

/// Giving a pane an id keeps the pairing in order, and leaves every other pane
/// its id.
pub proof fn law_giving_ids_keeps_order(s: StateView, w: u64)
    requires
        s.paired(),
        s.ahead(),
        s.next_pane < u64::MAX,
    ensures
        s.with_id_for(w).paired(),
        s.with_id_for(w).ahead(),
        forall|v: u64| #[trigger]
            s.wez_to_tmux.contains_key(v) ==> s.with_id_for(w).id_of(v) == s.id_of(v),
        forall|t: Seq<char>| #[trigger]
            s.tmux_to_wez.contains_key(t) ==> s.with_id_for(w).wez_of(t) == s.wez_of(t),
{
    let n = s.next_pane;
    let after = s.with_id_for(w);
    assert(!s.tmux_to_wez.contains_key(tmux_id(n)));
    if !s.wez_to_tmux.contains_key(w) {
        assert forall|m: u64| after.next_pane <= m implies !after.tmux_to_wez.contains_key(
            #[trigger] tmux_id(m),
        ) by {
            if tmux_id(m) == tmux_id(n) {
                lemma_tmux_id_injective(m, n);
            }
        }
    }
}

/// Using up an id keeps the pairing in order.
pub proof fn law_advancing_keeps_order(s: StateView)
    requires
        s.paired(),
        s.ahead(),
        s.next_pane < u64::MAX,
    ensures
        s.advance().paired(),
        s.advance().ahead(),
{
}

/// Binding makes an id and a pane mean each other, whatever they meant before.
pub proof fn law_bind_overrides(s: StateView, t: Seq<char>, w: u64)
    ensures
        s.bind(t, w).wez_of(t) == Some(w),
        s.bind(t, w).id_of(w) == t,
{
}

/// After binding, no other id leads to the pane.
pub proof fn law_bind_leaves_one_id(s: StateView, t: Seq<char>, w: u64, u: Seq<char>)
    requires
        s.backed(),
        u != t,
    ensures
        s.bind(t, w).wez_of(u) != Some(w),
{
}

/// Binding keeps the two directions of the pairing in agreement, and pairs that
/// have nothing to do with the id or the pane stay.
pub proof fn law_bind_keeps_pairs(s: StateView, t: Seq<char>, w: u64)
    requires
        s.paired(),
    ensures
        s.bind(t, w).paired(),
        forall|u: Seq<char>|
            u != t && s.wez_of(u) != Some(w) ==> #[trigger] s.bind(t, w).wez_of(u) == s.wez_of(u),
{
}

/// Binding leaves the counter, the variables and the policies alone.
pub proof fn law_bind_touches_nothing_else(s: StateView, t: Seq<char>, w: u64)
    ensures
        s.bind(t, w).next_pane == s.next_pane,
        s.bind(t, w).env_vars == s.env_vars,
        s.bind(t, w).env_names == s.env_names,
        s.bind(t, w).remain_on_exit == s.remain_on_exit,
{
}

/// Binding an id that was given out before keeps the counter ahead.
pub proof fn law_bind_keeps_ahead(s: StateView, t: Seq<char>, w: u64)
    requires
        s.ahead(),
        forall|n: u64| s.next_pane <= n ==> t != #[trigger] tmux_id(n),
    ensures
        s.bind(t, w).ahead(),
{
}

/// Forgetting a pane leaves no trace of it.
pub proof fn law_forget_leaves_no_trace(s: StateView, w: u64)
    requires
        s.backed(),
    ensures
        !s.forget(w).wez_to_tmux.contains_key(w),
        !s.forget(w).remain_on_exit.contains_key(w),
        forall|t: Seq<char>| #[trigger] s.forget(w).wez_of(t) != Some(w),
{
}

/// Forgetting a pane leaves every other pane its id and its policy.
pub proof fn law_forget_keeps_the_rest(s: StateView, w: u64)
    requires
        s.paired(),
    ensures
        s.forget(w).paired(),
        s.ahead() ==> s.forget(w).ahead(),
        forall|t: Seq<char>|
            s.wez_of(t) != Some(w) ==> #[trigger] s.forget(w).wez_of(t) == s.wez_of(t),
        forall|v: u64|
            v != w ==> s.forget(w).remain_on_exit.contains_key(v)
                == #[trigger] s.remain_on_exit.contains_key(v) && s.forget(w).remain_on_exit[v]
                == s.remain_on_exit[v],
        s.forget(w).env_vars == s.env_vars,
        s.forget(w).env_names == s.env_names,
        s.forget(w).next_pane == s.next_pane,
{
}

/// A forgotten pane that shows up again gets the next id.
pub proof fn law_forgotten_pane_starts_afresh(s: StateView, w: u64)
    ensures
        s.forget(w).id_of(w) == tmux_id(s.next_pane),
{
}

/// Forgetting a pane twice does nothing the second time.
pub proof fn law_forgetting_again_changes_nothing(s: StateView, w: u64)
    ensures
        s.forget(w).forget(w) == s.forget(w),
{
    assert(s.forget(w).wez_to_tmux.remove(w) =~= s.forget(w).wez_to_tmux);
    assert(s.forget(w).remain_on_exit.remove(w) =~= s.forget(w).remain_on_exit);
}

/// The id of a pane that was forgotten is not given to another pane.
pub proof fn law_forgotten_ids_are_not_reused(s: StateView, w: u64, v: u64)
    requires
        s.paired(),
        s.ahead(),
        s.wez_to_tmux.contains_key(w),
    ensures
        s.forget(w).id_of(v) != s.id_of(w),
{
}

/// A variable reads back as it was set last, and setting one leaves the others
/// alone.
pub proof fn law_env_reads_back(s: StateView, name: Seq<char>, value: Seq<char>)
    ensures
        s.with_env(name, value).env_vars.contains_key(name),
        s.with_env(name, value).env_vars[name] == value,
        forall|other: Seq<char>|
            other != name ==> s.with_env(name, value).env_vars.contains_key(other)
                == #[trigger] s.env_vars.contains_key(other) && s.with_env(
                name,
                value,
            ).env_vars[other] == s.env_vars[other],
{
}

/// Setting a variable keeps the names listed, each once.
pub proof fn law_env_stays_listed(s: StateView, name: Seq<char>, value: Seq<char>)
    requires
        s.env_listed(),
    ensures
        s.with_env(name, value).env_listed(),
{
    let after = s.with_env(name, value);
    if !s.env_vars.contains_key(name) {
        assert(!s.env_names.contains(name));
        assert(after.env_names.no_duplicates()) by {
            assert forall|i: int, j: int|
                0 <= i < after.env_names.len() && 0 <= j < after.env_names.len() && i
                    != j implies after.env_names[i] != after.env_names[j] by {
                if i == s.env_names.len() {
                    assert(s.env_names.contains(s.env_names[j]));
                } else if j == s.env_names.len() {
                    assert(s.env_names.contains(s.env_names[i]));
                }
            }
        }
        assert forall|k: Seq<char>| #[trigger]
            after.env_vars.contains_key(k) <==> after.env_names.contains(k) by {
            if k == name {
                assert(after.env_names[s.env_names.len() as int] == k);
            } else {
                if s.env_names.contains(k) {
                    let i = choose|i: int| 0 <= i < s.env_names.len() && s.env_names[i] == k;
                    assert(after.env_names[i] == k);
                }
                if after.env_names.contains(k) {
                    let i = choose|i: int|
                        0 <= i < after.env_names.len() && after.env_names[i] == k;
                    assert(s.env_names[i] == k);
                }
                assert(s.env_vars.contains_key(k) <==> s.env_names.contains(k));
            }
        }
    } else {
        assert forall|k: Seq<char>| #[trigger]
            after.env_vars.contains_key(k) <==> after.env_names.contains(k) by {
            assert(s.env_vars.contains_key(k) <==> s.env_names.contains(k));
        }
    }
}

// ------------------------------------------------- what each change consists of

/// With nothing remembered there are no ids, no variables and no policies, and
/// counting starts at 0.
pub proof fn law_nothing_remembered(t: Seq<char>, w: u64)
    ensures
        StateView::empty().wez_of(t) is None,
        !StateView::empty().wez_to_tmux.contains_key(w),
        StateView::empty().next_pane == 0,
        !StateView::empty().env_vars.contains_key(t),
        StateView::empty().env_names.len() == 0,
        !StateView::empty().remain_on_exit.contains_key(w),
{
}

/// An id leads to the pane it was paired with, if there is one.
pub proof fn law_ids_lead_where_they_were_paired(s: StateView, t: Seq<char>)
    ensures
        s.tmux_to_wez.contains_key(t) ==> s.wez_of(t) == Some(s.tmux_to_wez[t]),
        !s.tmux_to_wez.contains_key(t) ==> s.wez_of(t) is None,
{
}

/// Tmux pane ids are a percent sign and a number.
pub proof fn law_ids_are_numbers(n: u64)
    ensures
        tmux_id(n) == "%"@ + decimal(n as nat),
{
    reveal_strlit("%");
    assert("%"@ =~= seq!['%']);
}

/// Using up an id moves the counter on by one, back to 0 after the largest
/// number, and changes nothing else.
pub proof fn law_counting(s: StateView)
    ensures
        s.next_pane < u64::MAX ==> s.advance().next_pane == s.next_pane + 1,
        s.next_pane == u64::MAX ==> s.advance().next_pane == 0,
        s.advance().tmux_to_wez == s.tmux_to_wez,
        s.advance().wez_to_tmux == s.wez_to_tmux,
        s.advance().env_vars == s.env_vars,
        s.advance().env_names == s.env_names,
        s.advance().remain_on_exit == s.remain_on_exit,
{
}

/// A pane that has an id keeps it, and nothing changes. A pane without one gets
/// the number of the counter, which moves on, and nothing else changes.
pub proof fn law_giving_an_id(s: StateView, w: u64)
    ensures
        s.wez_to_tmux.contains_key(w) ==> s.id_of(w) == s.wez_to_tmux[w] && s.with_id_for(w) == s,
        !s.wez_to_tmux.contains_key(w) ==> {
            let id = "%"@ + decimal(s.next_pane as nat);
            &&& s.id_of(w) == id
            &&& s.with_id_for(w).tmux_to_wez == s.tmux_to_wez.insert(id, w)
            &&& s.with_id_for(w).wez_to_tmux == s.wez_to_tmux.insert(w, id)
            &&& s.with_id_for(w).next_pane == s.advance().next_pane
            &&& s.with_id_for(w).env_vars == s.env_vars
            &&& s.with_id_for(w).env_names == s.env_names
            &&& s.with_id_for(w).remain_on_exit == s.remain_on_exit
        },
{
    law_ids_are_numbers(s.next_pane);
}

/// Binding takes the old pane of the id its id, and the old id of the pane its
/// pane. Every other id and every other pane keeps what it has.
pub proof fn law_bind_pointwise(s: StateView, t: Seq<char>, w: u64, u: Seq<char>, v: u64)
    ensures
        v != w && s.wez_of(t) == Some(v) ==> !s.bind(t, w).wez_to_tmux.contains_key(v),
        v != w && s.wez_of(t) != Some(v) ==> s.bind(t, w).wez_to_tmux.contains_key(v)
            == s.wez_to_tmux.contains_key(v) && s.bind(t, w).wez_to_tmux[v] == s.wez_to_tmux[v],
        u != t && s.wez_to_tmux.contains_key(w) && s.wez_to_tmux[w] == u ==> s.bind(t, w).wez_of(u)
            is None,
        u != t && !(s.wez_to_tmux.contains_key(w) && s.wez_to_tmux[w] == u) ==> s.bind(
            t,
            w,
        ).wez_of(u) == s.wez_of(u),
{
}

/// Forgetting a pane takes its id its pane. Every other id and every other pane
/// keeps what it has.
pub proof fn law_forget_pointwise(s: StateView, w: u64, u: Seq<char>, v: u64)
    ensures
        v != w ==> s.forget(w).wez_to_tmux.contains_key(v) == s.wez_to_tmux.contains_key(v)
            && s.forget(w).wez_to_tmux[v] == s.wez_to_tmux[v],
        v != w ==> s.forget(w).remain_on_exit.contains_key(v) == s.remain_on_exit.contains_key(v)
            && s.forget(w).remain_on_exit[v] == s.remain_on_exit[v],
        !s.forget(w).wez_to_tmux.contains_key(w),
        !s.forget(w).remain_on_exit.contains_key(w),
        s.wez_to_tmux.contains_key(w) && s.wez_to_tmux[w] == u ==> s.forget(w).wez_of(u) is None,
        !(s.wez_to_tmux.contains_key(w) && s.wez_to_tmux[w] == u) ==> s.forget(w).wez_of(u)
            == s.wez_of(u),
        s.forget(w).next_pane == s.next_pane,
        s.forget(w).env_vars == s.env_vars,
        s.forget(w).env_names == s.env_names,
{
}

/// A new variable is listed last, one that was set before keeps its place. The
/// pairing and the policies do not change.
pub proof fn law_setting_a_variable(s: StateView, name: Seq<char>, value: Seq<char>)
    ensures
        s.with_env(name, value).env_vars == s.env_vars.insert(name, value),
        s.with_env(name, value).env_names == (if s.env_vars.contains_key(name) {
            s.env_names
        } else {
            s.env_names.push(name)
        }),
        s.with_env(name, value).tmux_to_wez == s.tmux_to_wez,
        s.with_env(name, value).wez_to_tmux == s.wez_to_tmux,
        s.with_env(name, value).next_pane == s.next_pane,
        s.with_env(name, value).remain_on_exit == s.remain_on_exit,
{
}

/// Setting the policy of a pane changes that policy and nothing else.
pub proof fn law_setting_a_policy(s: StateView, w: u64, value: Seq<char>)
    ensures
        s.with_policy(w, value).remain_on_exit == s.remain_on_exit.insert(w, value),
        s.with_policy(w, value).tmux_to_wez == s.tmux_to_wez,
        s.with_policy(w, value).wez_to_tmux == s.wez_to_tmux,
        s.with_policy(w, value).next_pane == s.next_pane,
        s.with_policy(w, value).env_vars == s.env_vars,
        s.with_policy(w, value).env_names == s.env_names,
{
}

} // verus!
