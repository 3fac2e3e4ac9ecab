//! A small map keyed by account identifiers.

use vstd::prelude::*;
use crate::principal::Principal;

verus! {

/// A finite map from identifiers to values, kept as a list of entries in
/// which no key occurs twice.
pub struct PrincipalMap<V> {
    entries: Vec<(Principal, V)>,
}

impl<V> PrincipalMap<V> {
    /// No key occurs twice.
    #[verifier::type_invariant]
    pub closed spec fn wf(self) -> bool {
        forall|i: int, j: int|
            0 <= i < j < self.entries@.len() ==> self.entries@[i].0 != self.entries@[j].0
    }

    /// The entries, in the order in which their keys were first inserted.
    pub closed spec fn entries_view(self) -> Seq<(Principal, V)> {
        self.entries@
    }

    /// The map as a mathematical value.
    pub closed spec fn view(self) -> Map<Principal, V> {
        Map::new(
            |k: Principal| exists|i: int| 0 <= i < self.entries@.len() && self.entries@[i].0 == k,
            |k: Principal|
                self.entries@[choose|i: int| 0 <= i < self.entries@.len() && self.entries@[i].0 == k].1,
        )
    }

    /// The value under `key`, or `default` where there is none.
    pub open spec fn get_or(self, key: Principal, default: V) -> V {
        if self@.contains_key(key) {
            self@[key]
        } else {
            default
        }
    }

    /// Every entry of the list is a pair of the map, every key of the map
    /// stands in the list, and no key stands there twice.
    pub proof fn lemma_entries(self)
        requires
            self.wf(),
        ensures
            forall|i: int|
                0 <= i < self.entries_view().len() ==> self@.contains_key(
                    #[trigger] self.entries_view()[i].0,
                ) && self@[self.entries_view()[i].0] == self.entries_view()[i].1,
            forall|k: Principal|
                self@.contains_key(k) ==> exists|i: int|
                    0 <= i < self.entries_view().len() && #[trigger] self.entries_view()[i].0 == k,
            forall|i: int, j: int|
                0 <= i < j < self.entries_view().len() ==> self.entries_view()[i].0
                    != self.entries_view()[j].0,
    {
        assert forall|i: int| 0 <= i < self.entries@.len() implies self@.contains_key(
            #[trigger] self.entries@[i].0,
        ) && self@[self.entries@[i].0] == self.entries@[i].1 by {
            self.lemma_entry(i);
        }
        assert forall|k: Principal| self@.contains_key(k) implies exists|i: int|
            0 <= i < self.entries_view().len() && #[trigger] self.entries_view()[i].0 == k by {
            let j = choose|j: int| 0 <= j < self.entries@.len() && self.entries@[j].0 == k;
            assert(self.entries_view()[j].0 == k);
        }
    }

    proof fn lemma_entry(self, i: int)
        requires
            self.wf(),
            0 <= i < self.entries@.len(),
        ensures
            self@.contains_key(self.entries@[i].0),
            self@[self.entries@[i].0] == self.entries@[i].1,
    {
        let k = self.entries@[i].0;
        let j = choose|j: int| 0 <= j < self.entries@.len() && self.entries@[j].0 == k;
        assert(j == i);
    }

    /// A map without entries.
    pub fn new() -> (r: Self)
        ensures
            r@ == Map::<Principal, V>::empty(),
            r.entries_view().len() == 0,
    {
        let r = PrincipalMap { entries: Vec::new() };
        assert(r@ =~= Map::<Principal, V>::empty());
        r
    }

    /// Where `key` stands in the list.
    fn position(&self, key: &Principal) -> (r: Option<usize>)
        ensures
            self.wf(),
            match r {
                Some(i) => i < self.entries@.len() && self.entries@[i as int].0 == *key,
                None => forall|j: int| 0 <= j < self.entries@.len() ==> self.entries@[j].0 != *key,
            },
    {
        proof {
            use_type_invariant(self);
        }
        let mut i: usize = 0;
        while i < self.entries.len()
            invariant
                self.wf(),
                i <= self.entries@.len(),
                forall|j: int| 0 <= j < i ==> self.entries@[j].0 != *key,
            decreases self.entries@.len() - i,
        {
            if self.entries[i].0 == *key {
                return Some(i);
            }
            i += 1;
        }
        None
    }

    /// Whether the map has an entry for `key`.
    pub fn contains_key(&self, key: &Principal) -> (r: bool)
        ensures
            r == self@.contains_key(*key),
    {
        let r = self.position(key);
        proof {
            if let Some(i) = r {
                self.lemma_entry(i as int);
            }
        }
        r.is_some()
    }

    /// The value under `key`, if there is one.
    pub fn get(&self, key: &Principal) -> (r: Option<&V>)
        ensures
            r is Some <==> self@.contains_key(*key),
            r is Some ==> *r->0 == self@[*key],
    {
        match self.position(key) {
            Some(i) => {
                proof {
                    self.lemma_entry(i as int);
                }
                Some(&self.entries[i].1)
            },
            None => None,
        }
    }

    /// Puts `value` under `key`, in place of what was there.
    pub fn insert(&mut self, key: Principal, value: V)
        ensures
            final(self)@ == old(self)@.insert(key, value),
    {
        let found = self.position(&key);
        let ghost before = *self;
        match found {
            Some(i) => {
                let mut entries: Vec<(Principal, V)> = Vec::new();
                core::mem::swap(&mut entries, &mut self.entries);
                entries.set(i, (key, value));
                self.entries = entries;
                assert(self.wf());
                assert forall|k: Principal| #[trigger]
                    self@.contains_key(k) == before@.insert(key, value).contains_key(k) by {
                    if self@.contains_key(k) {
                        let j = choose|j: int|
                            0 <= j < self.entries@.len() && self.entries@[j].0 == k;
                        assert(before.entries@[j].0 == k);
                    }
                    if before@.contains_key(k) {
                        let j = choose|j: int|
                            0 <= j < before.entries@.len() && before.entries@[j].0 == k;
                        assert(self.entries@[j].0 == k);
                    }
                    if k == key {
                        assert(self.entries@[i as int].0 == k);
                    }
                }
                assert forall|k: Principal| #[trigger]
                    self@.contains_key(k) implies self@[k] == before@.insert(key, value)[k] by {
                    let j = choose|j: int|
                        0 <= j < self.entries@.len() && self.entries@[j].0 == k;
                    self.lemma_entry(j);
                    if k != key {
                        assert(before.entries@[j].0 == k);
                        before.lemma_entry(j);
                    }
                }
                assert(self@ =~= before@.insert(key, value));
            },
            None => {
                let mut entries: Vec<(Principal, V)> = Vec::new();
                core::mem::swap(&mut entries, &mut self.entries);
                entries.push((key, value));
                self.entries = entries;
                assert(self.wf());
                let ghost n = before.entries@.len() as int;
                assert forall|k: Principal| #[trigger]
                    self@.contains_key(k) == before@.insert(key, value).contains_key(k) by {
                    if self@.contains_key(k) {
                        let j = choose|j: int|
                            0 <= j < self.entries@.len() && self.entries@[j].0 == k;
                        if j < n {
                            assert(before.entries@[j].0 == k);
                        }
                    }
                    if before@.contains_key(k) {
                        let j = choose|j: int|
                            0 <= j < before.entries@.len() && before.entries@[j].0 == k;
                        assert(self.entries@[j].0 == k);
                    }
                    if k == key {
                        assert(self.entries@[n].0 == k);
                    }
                }
                assert forall|k: Principal| #[trigger]
                    self@.contains_key(k) implies self@[k] == before@.insert(key, value)[k] by {
                    let j = choose|j: int|
                        0 <= j < self.entries@.len() && self.entries@[j].0 == k;
                    self.lemma_entry(j);
                    if k != key {
                        assert(before.entries@[j].0 == k);
                        before.lemma_entry(j);
                    }
                }
                assert(self@ =~= before@.insert(key, value));
            },
        }
    }

    /// Takes the entry for `key` out of the map and returns its value.
    pub fn remove(&mut self, key: &Principal) -> (r: Option<V>)
        ensures
            final(self)@ == old(self)@.remove(*key),
            r is Some <==> old(self)@.contains_key(*key),
            r is Some ==> r->0 == old(self)@[*key],
    {
        let found = self.position(key);
        let ghost before = *self;
        match found {
            Some(i) => {
                proof {
                    before.lemma_entry(i as int);
                }
                let mut entries: Vec<(Principal, V)> = Vec::new();
                core::mem::swap(&mut entries, &mut self.entries);
                let entry = entries.remove(i);
                self.entries = entries;
                assert(self.wf());
                assert forall|k: Principal| #[trigger]
                    self@.contains_key(k) == before@.remove(*key).contains_key(k) by {
                    if self@.contains_key(k) {
                        let j = choose|j: int|
                            0 <= j < self.entries@.len() && self.entries@[j].0 == k;
                        if j < i {
                            assert(before.entries@[j].0 == k);
                        } else {
                            assert(before.entries@[j + 1].0 == k);
                        }
                    }
                    if before@.contains_key(k) && k != *key {
                        let j = choose|j: int|
                            0 <= j < before.entries@.len() && before.entries@[j].0 == k;
                        if j < i {
                            assert(self.entries@[j].0 == k);
                        } else {
                            assert(self.entries@[j - 1].0 == k);
                        }
                    }
                }
                assert forall|k: Principal| #[trigger]
                    self@.contains_key(k) implies self@[k] == before@.remove(*key)[k] by {
                    let j = choose|j: int|
                        0 <= j < self.entries@.len() && self.entries@[j].0 == k;
                    self.lemma_entry(j);
                    if j < i {
                        before.lemma_entry(j);
                    } else {
                        before.lemma_entry(j + 1);
                    }
                }
                assert(self@ =~= before@.remove(*key));
                Some(entry.1)
            },
            None => {
                assert(self@ =~= before@.remove(*key));
                None
            },
        }
    }

    /// The entries of the map, one for each key.
    pub fn entries(&self) -> (r: &Vec<(Principal, V)>)
        ensures
            self.wf(),
            r@ == self.entries_view(),
    {
        proof {
            use_type_invariant(self);
        }
        &self.entries
    }
}

} // verus!
