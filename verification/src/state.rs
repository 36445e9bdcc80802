//! What the shim remembers between invocations: the pairing of tmux pane ids
//! with WezTerm pane ids, stored variables, and close policies.

use crate::table::TextMap;
use crate::text::{decimal, same, show_u64};
use std::collections::HashMap;
use vstd::prelude::*;

verus! {

broadcast use vstd::std_specs::hash::group_hash_axioms;

/// The tmux pane id with a given number, such as `%3`.
pub open spec fn tmux_id(n: u64) -> Seq<char> {
    seq!['%'] + decimal(n as nat)
}

/// The model of [`State`].
pub struct StateView {
    /// tmux pane id to WezTerm pane id
    pub tmux_to_wez: Map<Seq<char>, u64>,
    /// WezTerm pane id to tmux pane id
    pub wez_to_tmux: Map<u64, Seq<char>>,
    /// number of the next tmux pane id
    pub next_pane: u64,
    /// stored environment variables
    pub env_vars: Map<Seq<char>, Seq<char>>,
    /// names of the stored variables, first set first
    pub env_names: Seq<Seq<char>>,
    /// WezTerm pane id to `remain-on-exit` value
    pub remain_on_exit: Map<u64, Seq<char>>,
}

/// The counter after one pane id was given out. It wraps around.
pub open spec fn counter_after(n: u64) -> u64 {
    if n == u64::MAX {
        0
    } else {
        (n + 1) as u64
    }
}

impl StateView {
    /// Nothing remembered yet.
    pub open spec fn empty() -> StateView {
        StateView {
            tmux_to_wez: Map::empty(),
            wez_to_tmux: Map::empty(),
            next_pane: 0,
            env_vars: Map::empty(),
            env_names: Seq::empty(),
            remain_on_exit: Map::empty(),
        }
    }

    /// Uses up the next tmux pane id.
    pub open spec fn advance(self) -> StateView {
        StateView { next_pane: counter_after(self.next_pane), ..self }
    }

    /// The state once `wez_id` has a tmux pane id: the one it has, or else the
    /// next one.
    pub open spec fn with_id_for(self, wez_id: u64) -> StateView {
        if self.wez_to_tmux.contains_key(wez_id) {
            self
        } else {
            let tid = tmux_id(self.next_pane);
            StateView {
                tmux_to_wez: self.tmux_to_wez.insert(tid, wez_id),
                wez_to_tmux: self.wez_to_tmux.insert(wez_id, tid),
                ..self.advance()
            }
        }
    }

    /// The tmux pane id that `wez_id` has or gets.
    pub open spec fn id_of(self, wez_id: u64) -> Seq<char> {
        if self.wez_to_tmux.contains_key(wez_id) {
            self.wez_to_tmux[wez_id]
        } else {
            tmux_id(self.next_pane)
        }
    }

    /// The WezTerm pane behind a tmux pane id.
    pub open spec fn wez_of(self, tmux_id: Seq<char>) -> Option<u64> {
        if self.tmux_to_wez.contains_key(tmux_id) {
            Some(self.tmux_to_wez[tmux_id])
        } else {
            None
        }
    }

    /// The state once `tmux_id` and `wez_id` are paired. What either of them
    /// was paired with before loses its entry.
    pub open spec fn bind(self, tmux_id: Seq<char>, wez_id: u64) -> StateView {
        let wez = match self.wez_of(tmux_id) {
            Some(old_wez) if old_wez != wez_id => self.wez_to_tmux.remove(old_wez),
            _ => self.wez_to_tmux,
        };
        let tmux = if wez.contains_key(wez_id) && wez[wez_id] != tmux_id {
            self.tmux_to_wez.remove(wez[wez_id])
        } else {
            self.tmux_to_wez
        };
        StateView {
            tmux_to_wez: tmux.insert(tmux_id, wez_id),
            wez_to_tmux: wez.insert(wez_id, tmux_id),
            ..self
        }
    }

    /// The state without anything about `wez_id`.
    pub open spec fn forget(self, wez_id: u64) -> StateView {
        StateView {
            tmux_to_wez: if self.wez_to_tmux.contains_key(wez_id) {
                self.tmux_to_wez.remove(self.wez_to_tmux[wez_id])
            } else {
                self.tmux_to_wez
            },
            wez_to_tmux: self.wez_to_tmux.remove(wez_id),
            remain_on_exit: self.remain_on_exit.remove(wez_id),
            ..self
        }
    }

    /// The state with a variable set.
    pub open spec fn with_env(self, name: Seq<char>, value: Seq<char>) -> StateView {
        StateView {
            env_vars: self.env_vars.insert(name, value),
            env_names: if self.env_vars.contains_key(name) {
                self.env_names
            } else {
                self.env_names.push(name)
            },
            ..self
        }
    }

    /// The state with a close policy set.
    pub open spec fn with_policy(self, wez_id: u64, value: Seq<char>) -> StateView {
        StateView { remain_on_exit: self.remain_on_exit.insert(wez_id, value), ..self }
    }
}

/// What the shim remembers between invocations.
pub struct State {
    /// tmux pane id (such as `%3`) to WezTerm pane id
    pub tmux_to_wez: TextMap<u64>,
    /// WezTerm pane id to tmux pane id
    pub wez_to_tmux: HashMap<u64, String>,
    /// number of the next tmux pane id
    pub next_pane: u64,
    /// stored environment variables (`set-environment`, `show-environment`)
    pub env_vars: TextMap<String>,
    /// WezTerm pane id to `remain-on-exit` value: `off`, `on` or `failed`. A
    /// pane without an entry counts as `off`.
    pub remain_on_exit: HashMap<u64, String>,
}

/// A map to strings as a map to texts.
pub open spec fn text_values<K>(m: Map<K, String>) -> Map<K, Seq<char>> {
    m.map_values(|s: String| s@)
}

impl View for State {
    type V = StateView;

    open spec fn view(&self) -> StateView {
        StateView {
            tmux_to_wez: self.tmux_to_wez@,
            wez_to_tmux: text_values(self.wez_to_tmux@),
            next_pane: self.next_pane,
            env_vars: text_values(self.env_vars@),
            env_names: self.env_vars.names(),
            remain_on_exit: text_values(self.remain_on_exit@),
        }
    }
}

proof fn lemma_text_values<K>(m: Map<K, String>, k: K, v: String)
    ensures
        text_values(m.insert(k, v)) == text_values(m).insert(k, v@),
        text_values(m.remove(k)) == text_values(m).remove(k),
{
    assert(text_values(m.insert(k, v)) =~= text_values(m).insert(k, v@));
    assert(text_values(m.remove(k)) =~= text_values(m).remove(k));
}

/// Writes a tmux pane id.
pub fn show_tmux_id(n: u64) -> (r: String)
    ensures
        r@ == tmux_id(n),
{
    let mut s: String = String::new();
    s.push('%');
    s.append(show_u64(n).as_str());
    assert(s@ =~= tmux_id(n));
    s
}

impl Default for State {
    fn default() -> (s: State)
        ensures
            s@ == StateView::empty(),
    {
        let s = State {
            tmux_to_wez: TextMap::new(),
            wez_to_tmux: HashMap::new(),
            next_pane: 0,
            env_vars: TextMap::new(),
            remain_on_exit: HashMap::new(),
        };
        assert(s@.wez_to_tmux =~= Map::<u64, Seq<char>>::empty());
        assert(s@.env_vars =~= Map::<Seq<char>, Seq<char>>::empty());
        assert(s@.remain_on_exit =~= Map::<u64, Seq<char>>::empty());
        s
    }
}

/// The state to work with: the one that was read, or an empty one if there was
/// none or it could not be read.
pub fn loaded_state(read: Option<State>) -> (r: State)
    ensures
        r@ == (match read {
            Some(s) => s@,
            None => StateView::empty(),
        }),
{
    match read {
        Some(s) => s,
        None => State::default(),
    }
}

impl State {
    /// The tmux pane id of a WezTerm pane, given out now if the pane has none.
    pub fn alloc_pane(&mut self, wez_id: u64) -> (r: String)
        ensures
            r@ == old(self)@.id_of(wez_id),
            final(self)@ == old(self)@.with_id_for(wez_id),
    {
        if let Some(tid) = self.wez_to_tmux.get(&wez_id) {
            return tid.clone();
        }
        let tid = self.synthetic_pane();
        self.tmux_to_wez.insert(tid.clone(), wez_id);
        proof {
            lemma_text_values(self.wez_to_tmux@, wez_id, tid);
        }
        self.wez_to_tmux.insert(wez_id, tid.clone());
        tid
    }

    /// The next tmux pane id, given out without a WezTerm pane behind it.
    pub fn synthetic_pane(&mut self) -> (r: String)
        ensures
            r@ == tmux_id(old(self)@.next_pane),
            final(self)@ == old(self)@.advance(),
    {
        let tid = show_tmux_id(self.next_pane);
        self.next_pane = if self.next_pane == u64::MAX {
            0
        } else {
            self.next_pane + 1
        };
        tid
    }

    /// The tmux pane id of a WezTerm pane, given out now if the pane has none.
    pub fn tmux_id_for_wez(&mut self, wez_id: u64) -> (r: String)
        ensures
            r@ == old(self)@.id_of(wez_id),
            final(self)@ == old(self)@.with_id_for(wez_id),
    {
        self.alloc_pane(wez_id)
    }

    /// The WezTerm pane behind a tmux pane id.
    pub fn wez_id_for_tmux(&self, tmux_id: &str) -> (r: Option<u64>)
        ensures
            r == self@.wez_of(tmux_id@),
    {
        match self.tmux_to_wez.get(tmux_id) {
            Some(id) => Some(*id),
            None => None,
        }
    }

    /// Pairs `tmux_id` with `wez_id`, whatever either was paired with before.
    pub fn bind_pane(&mut self, tmux_id: &str, wez_id: u64)
        ensures
            final(self)@ == old(self)@.bind(tmux_id@, wez_id),
    {
        let empty: String = String::new();
        if let Some(old_wez) = self.wez_id_for_tmux(tmux_id) {
            if old_wez != wez_id {
                proof {
                    lemma_text_values(self.wez_to_tmux@, old_wez, empty);
                }
                self.wez_to_tmux.remove(&old_wez);
            }
        }
        let old_tid: Option<String> = match self.wez_to_tmux.get(&wez_id) {
            Some(tid) => Some(tid.clone()),
            None => None,
        };
        if let Some(tid) = old_tid {
            if !same(tid.as_str(), tmux_id) {
                self.tmux_to_wez.remove(tid.as_str());
            }
        }
        self.tmux_to_wez.insert(tmux_id.to_owned(), wez_id);
        let tid = tmux_id.to_owned();
        proof {
            lemma_text_values(self.wez_to_tmux@, wez_id, tid);
        }
        self.wez_to_tmux.insert(wez_id, tid);
    }

    /// Forgets everything about a WezTerm pane that is gone.
    pub fn forget_pane(&mut self, wez_id: u64)
        ensures
            final(self)@ == old(self)@.forget(wez_id),
    {
        let empty: String = String::new();
        proof {
            lemma_text_values(self.wez_to_tmux@, wez_id, empty);
            lemma_text_values(self.remain_on_exit@, wez_id, empty);
        }
        if let Some(tid) = self.wez_to_tmux.remove(&wez_id) {
            self.tmux_to_wez.remove(tid.as_str());
        }
        self.remain_on_exit.remove(&wez_id);
    }

    /// Stores an environment variable.
    pub fn set_env(&mut self, name: String, value: String)
        ensures
            final(self)@ == old(self)@.with_env(name@, value@),
    {
        proof {
            lemma_text_values(self.env_vars@, name@, value);
        }
        self.env_vars.insert(name, value);
    }

    /// Stores the close policy of a pane.
    pub fn set_policy(&mut self, wez_id: u64, value: String)
        ensures
            final(self)@ == old(self)@.with_policy(wez_id, value@),
    {
        proof {
            lemma_text_values(self.remain_on_exit@, wez_id, value);
        }
        self.remain_on_exit.insert(wez_id, value);
    }
}

} // verus!
