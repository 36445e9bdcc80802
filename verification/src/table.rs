//! A map keyed by texts that remembers the order in which its keys came.

use crate::text::same;
use vstd::prelude::*;

verus! {

/// Whether `names` holds every key of `m` once, and nothing else.
pub open spec fn lists<V>(names: Seq<Seq<char>>, m: Map<Seq<char>, V>) -> bool {
    &&& names.no_duplicates()
    &&& forall|k: Seq<char>| #[trigger] m.contains_key(k) <==> names.contains(k)
}

/// A map from texts to values. No key occurs twice, and a key keeps the place
/// it got when it was first inserted.
pub struct TextMap<V> {
    entries: Vec<(String, V)>,
}

impl<V> TextMap<V> {
    /// The keys, first inserted first.
    pub closed spec fn names(self) -> Seq<Seq<char>> {
        self.entries@.map_values(|e: (String, V)| e.0@)
    }

    /// The place of a key among the keys.
    spec fn place(self, key: Seq<char>) -> int {
        choose|i: int| 0 <= i < self.entries@.len() && #[trigger] self.entries@[i].0@ == key
    }

    #[verifier::type_invariant]
    spec fn distinct(self) -> bool {
        forall|i: int, j: int|
            0 <= i < j < self.entries@.len() ==> (#[trigger] self.entries@[i]).0@ != (
            #[trigger] self.entries@[j]).0@
    }

    /// The view has the value of every entry, and no other keys.
    proof fn lemma_places(self)
        requires
            self.distinct(),
        ensures
            forall|i: int|
                0 <= i < self.entries@.len() ==> self@.contains_key(
                    (#[trigger] self.entries@[i]).0@,
                ) && self@[self.entries@[i].0@] == self.entries@[i].1,
            forall|k: Seq<char>| #[trigger]
                self@.contains_key(k) ==> exists|i: int|
                    0 <= i < self.entries@.len() && (#[trigger] self.entries@[i]).0@ == k,
    {
        assert forall|i: int| 0 <= i < self.entries@.len() implies self@.contains_key(
            (#[trigger] self.entries@[i]).0@,
        ) && self@[self.entries@[i].0@] == self.entries@[i].1 by {
            let key = self.entries@[i].0@;
            assert(self.names()[i] == key);
            assert(self.entries@[self.place(key)].0@ == key);
        }
        assert forall|k: Seq<char>| #[trigger] self@.contains_key(k) implies exists|i: int|
            0 <= i < self.entries@.len() && (#[trigger] self.entries@[i]).0@ == k by {
            let i = choose|i: int| 0 <= i < self.names().len() && self.names()[i] == k;
            assert(self.entries@[i].0@ == k);
        }
    }

    proof fn lemma_absent(self, key: Seq<char>)
        requires
            forall|i: int| 0 <= i < self.entries@.len() ==> (#[trigger] self.entries@[i]).0@ != key,
        ensures
            !self@.contains_key(key),
    {
        if self.names().contains(key) {
            let i = choose|i: int| 0 <= i < self.names().len() && self.names()[i] == key;
            assert(self.entries@[i].0@ == key);
        }
    }

    /// A map that agrees with every entry and has no other keys is the view.
    proof fn lemma_agrees(self, m: Map<Seq<char>, V>)
        requires
            self.distinct(),
            forall|i: int|
                0 <= i < self.entries@.len() ==> m.contains_key((#[trigger] self.entries@[i]).0@)
                    && m[self.entries@[i].0@] == self.entries@[i].1,
            forall|k: Seq<char>| #[trigger]
                m.contains_key(k) ==> exists|i: int|
                    0 <= i < self.entries@.len() && (#[trigger] self.entries@[i]).0@ == k,
        ensures
            self@ == m,
    {
        assert forall|k: Seq<char>| self@.contains_key(k) == m.contains_key(k) by {
            if self@.contains_key(k) {
                let i = choose|i: int| 0 <= i < self.names().len() && self.names()[i] == k;
                assert(self.entries@[i].0@ == k);
            }
            if m.contains_key(k) {
                let i = choose|i: int|
                    0 <= i < self.entries@.len() && (#[trigger] self.entries@[i]).0@ == k;
                assert(self.names()[i] == k);
            }
        }
        assert forall|k: Seq<char>| self@.contains_key(k) implies self@[k] == m[k] by {
            let i = choose|i: int|
                0 <= i < self.entries@.len() && (#[trigger] self.entries@[i]).0@ == k;
            self.lemma_places();
        }
        assert(self@ =~= m);
    }
}

impl<V> View for TextMap<V> {
    type V = Map<Seq<char>, V>;

    closed spec fn view(&self) -> Map<Seq<char>, V> {
        Map::new(|k: Seq<char>| self.names().contains(k), |k: Seq<char>| self.entries@[self.place(k)].1)
    }
}

impl<V> TextMap<V> {
    /// The map without entries.
    pub fn new() -> (m: TextMap<V>)
        ensures
            m@ == Map::<Seq<char>, V>::empty(),
            m.names() == Seq::<Seq<char>>::empty(),
    {
        let m = TextMap { entries: Vec::new() };
        assert(m.names() =~= Seq::<Seq<char>>::empty());
        assert(m@ =~= Map::<Seq<char>, V>::empty());
        m
    }

    fn find(&self, key: &str) -> (r: Option<usize>)
        ensures
            match r {
                Some(i) => i < self.entries@.len() && self.entries@[i as int].0@ == key@,
                None => forall|i: int|
                    0 <= i < self.entries@.len() ==> (#[trigger] self.entries@[i]).0@ != key@,
            },
    {
        let mut i: usize = 0;
        while i < self.entries.len()
            invariant
                i <= self.entries@.len(),
                forall|j: int| 0 <= j < i ==> (#[trigger] self.entries@[j]).0@ != key@,
            decreases self.entries@.len() - i,
        {
            if same(self.entries[i].0.as_str(), key) {
                return Some(i);
            }
            i += 1;
        }
        None
    }

    /// The value of a key.
    pub fn get(&self, key: &str) -> (r: Option<&V>)
        ensures
            match r {
                Some(v) => self@.contains_key(key@) && *v == self@[key@],
                None => !self@.contains_key(key@),
            },
    {
        proof {
            use_type_invariant(self);
        }
        match self.find(key) {
            Some(i) => {
                proof {
                    self.lemma_places();
                }
                Some(&self.entries[i].1)
            },
            None => {
                proof {
                    self.lemma_absent(key@);
                }
                None
            },
        }
    }

    /// Gives a key a value. A new key comes last.
    pub fn insert(&mut self, key: String, value: V)
        ensures
            final(self)@ == old(self)@.insert(key@, value),
            final(self).names() == (if old(self)@.contains_key(key@) {
                old(self).names()
            } else {
                old(self).names().push(key@)
            }),
    {
        proof {
            use_type_invariant(&*self);
        }
        let ghost before = *self;
        let found = self.find(key.as_str());
        let mut entries: Vec<(String, V)> = Vec::new();
        std::mem::swap(&mut entries, &mut self.entries);
        match found {
            Some(i) => {
                entries.set(i, (key, value));
                self.entries = entries;
                proof {
                    before.lemma_places();
                    assert(self.names() =~= before.names());
                    self.lemma_agrees(before@.insert(key@, value));
                }
            },
            None => {
                entries.push((key, value));
                self.entries = entries;
                proof {
                    before.lemma_places();
                    assert(self.names() =~= before.names().push(key@));
                    let m = before@.insert(key@, value);
                    assert forall|k: Seq<char>| #[trigger] m.contains_key(k) implies exists|i: int|
                        0 <= i < self.entries@.len() && (#[trigger] self.entries@[i]).0@ == k by {
                        if k == key@ {
                            assert(self.entries@[before.entries@.len() as int].0@ == k);
                        } else {
                            assert(before@.contains_key(k));
                            let i = choose|i: int|
                                0 <= i < before.entries@.len() && (
                                #[trigger] before.entries@[i]).0@ == k;
                            assert(self.entries@[i].0@ == k);
                        }
                    }
                    self.lemma_agrees(before@.insert(key@, value));
                }
            },
        }
    }

    /// Forgets a key.
    pub fn remove(&mut self, key: &str)
        ensures
            final(self)@ == old(self)@.remove(key@),
            match old(self)@.contains_key(key@) {
                true => exists|i: int|
                    0 <= i < old(self).names().len() && #[trigger] old(self).names()[i] == key@
                        && final(self).names() == old(self).names().remove(i),
                false => final(self).names() == old(self).names(),
            },
    {
        proof {
            use_type_invariant(&*self);
        }
        let ghost before = *self;
        let found = self.find(key);
        match found {
            Some(i) => {
                let mut entries: Vec<(String, V)> = Vec::new();
                std::mem::swap(&mut entries, &mut self.entries);
                let _ = entries.remove(i);
                self.entries = entries;
                proof {
                    before.lemma_places();
                    assert(before.names()[i as int] == key@);
                    assert(self.names() =~= before.names().remove(i as int));
                    assert forall|j: int| 0 <= j < before.entries@.len() && j != i implies exists|
                        k: int,
                    |
                        0 <= k < self.entries@.len() && (#[trigger] self.entries@[k]).0@ == (
                        #[trigger] before.entries@[j]).0@ by {
                        let k = if j < i {
                            j
                        } else {
                            j - 1
                        };
                        assert(self.entries@[k] == before.entries@[j]);
                    }
                    self.lemma_agrees(before@.remove(key@));
                }
            },
            None => {
                proof {
                    before.lemma_absent(key@);
                    assert(before@.remove(key@) =~= before@);
                }
            },
        }
    }

    /// The entries, in the order of the keys.
    pub fn entries(&self) -> (r: &Vec<(String, V)>)
        ensures
            lists(self.names(), self@),
            r@.len() == self.names().len(),
            forall|i: int|
                #![trigger r@[i]]
                0 <= i < r@.len() ==> r@[i].0@ == self.names()[i] && self@.contains_key(r@[i].0@)
                    && self@[r@[i].0@] == r@[i].1,
    {
        proof {
            use_type_invariant(self);
            self.lemma_places();
            assert forall|i: int, j: int|
                0 <= i < self.names().len() && 0 <= j < self.names().len() && i
                    != j implies self.names()[i] != self.names()[j] by {
                assert(self.names()[i] == self.entries@[i].0@);
                assert(self.names()[j] == self.entries@[j].0@);
            }
        }
        &self.entries
    }
}

} // verus!
