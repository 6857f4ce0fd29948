//! A map from `u64` keys to records, kept as an association list in
//! strictly ascending key order. One instance exists per entity type.
//!
//! Contracts speak of two abstractions: `as_map`, the key-value
//! mapping itself, and `key_seq`, the keys in storage order, which is
//! what the iteration operations walk.

use vstd::prelude::*;

verus! {

/// An ordered key-value store for one entity type.
pub struct Store<V> {
    entries: Vec<(u64, V)>,
}

impl<V> Store<V> {
    /// The keys in storage order.
    pub closed spec fn key_seq(self) -> Seq<u64> {
        Seq::new(self.entries@.len(), |i: int| self.entries@[i].0)
    }

    /// The mapping the store represents.
    pub closed spec fn as_map(self) -> Map<u64, V> {
        Map::new(
            |k: u64| self.key_seq().contains(k),
            |k: u64|
                self.entries@[choose|i: int|
                    0 <= i < self.entries@.len() && self.entries@[i].0 == k].1,
        )
    }

    /// Entries are sorted by strictly ascending key, so keys are unique.
    pub closed spec fn wf(self) -> bool {
        forall|i: int, j: int|
            0 <= i < j < self.entries@.len() ==> self.entries@[i].0 < self.entries@[j].0
    }

    /// Every key of the map is a key of the sequence and conversely.
    pub proof fn lemma_keys(self)
        ensures
            forall|k: u64| #[trigger] self.as_map().contains_key(k) <==> self.key_seq().contains(k),
    {
    }

    /// The entry at a given index is in the map with exactly that value.
    proof fn lemma_entry_maps(self, i: int)
        requires
            self.wf(),
            0 <= i < self.entries@.len(),
        ensures
            self.key_seq()[i] == self.entries@[i].0,
            self.as_map().contains_key(self.entries@[i].0),
            self.as_map()[self.entries@[i].0] == self.entries@[i].1,
    {
        let k = self.entries@[i].0;
        assert(self.key_seq()[i] == k);
        assert(self.key_seq().contains(k));
        let j = choose|j: int| 0 <= j < self.entries@.len() && self.entries@[j].0 == k;
        if i < j {
            assert(self.entries@[i].0 < self.entries@[j].0);
        }
        if j < i {
            assert(self.entries@[j].0 < self.entries@[i].0);
        }
        assert(j == i);
    }

    /// An empty store.
    pub fn new() -> (s: Self)
        ensures
            s.wf(),
            s.key_seq() == Seq::<u64>::empty(),
            s.as_map() == Map::<u64, V>::empty(),
    {
        let s = Store { entries: Vec::new() };
        proof {
            assert(s.key_seq() =~= Seq::<u64>::empty());
            assert(s.as_map() =~= Map::<u64, V>::empty());
        }
        s
    }

    /// How many entries the store holds.
    pub fn len(&self) -> (n: usize)
        requires
            self.wf(),
        ensures
            n == self.key_seq().len(),
            (n == 0) <==> (forall|k: u64| !(#[trigger] self.as_map().contains_key(k))),
    {
        proof {
            if self.entries@.len() > 0 {
                self.lemma_entry_maps(0);
            }
        }
        self.entries.len()
    }

    /// The index holding a key, or absence.
    fn index_of(&self, key: u64) -> (r: Option<usize>)
        ensures
            match r {
                Some(i) => i < self.entries@.len() && self.entries@[i as int].0 == key,
                None => forall|j: int| 0 <= j < self.entries@.len() ==> self.entries@[j].0 != key,
            },
    {
        let n = self.entries.len();
        let mut i: usize = 0;
        while i < n
            invariant
                n == self.entries@.len(),
                i <= n,
                forall|j: int| 0 <= j < i ==> self.entries@[j].0 != key,
            decreases n - i,
        {
            if self.entries[i].0 == key {
                return Some(i);
            }
            i = i + 1;
        }
        None
    }

    /// With no index holding a key, the key is not in the map.
    proof fn lemma_absent(self, key: u64)
        requires
            forall|j: int| 0 <= j < self.entries@.len() ==> self.entries@[j].0 != key,
        ensures
            !self.as_map().contains_key(key),
    {
        assert forall|j: int| 0 <= j < self.key_seq().len() implies self.key_seq()[j] != key by {
            assert(self.entries@[j].0 != key);
        }
        assert(!self.key_seq().contains(key));
    }

    /// The current value under a key, or absence; no side effect.
    pub fn get(&self, key: u64) -> (r: Option<&V>)
        requires
            self.wf(),
        ensures
            match r {
                Some(v) => self.as_map().contains_key(key) && *v == self.as_map()[key],
                None => !self.as_map().contains_key(key),
            },
    {
        match self.index_of(key) {
            Some(i) => {
                proof {
                    self.lemma_entry_maps(i as int);
                }
                Some(&self.entries[i].1)
            }
            None => {
                proof {
                    self.lemma_absent(key);
                }
                None
            }
        }
    }

    /// Whether a key is present.
    pub fn contains(&self, key: u64) -> (r: bool)
        requires
            self.wf(),
        ensures
            r == self.as_map().contains_key(key),
    {
        match self.get(key) {
            Some(_) => true,
            None => false,
        }
    }

    /// The index of the first key not below `key`.
    fn lower_bound(&self, key: u64) -> (i: usize)
        requires
            self.wf(),
        ensures
            i <= self.entries@.len(),
            forall|j: int| 0 <= j < i ==> self.entries@[j].0 < key,
            i < self.entries@.len() ==> self.entries@[i as int].0 >= key,
    {
        let n = self.entries.len();
        let mut i: usize = 0;
        while i < n
            invariant
                n == self.entries@.len(),
                i <= n,
                forall|j: int| 0 <= j < i ==> self.entries@[j].0 < key,
            decreases n - i,
        {
            if self.entries[i].0 >= key {
                return i;
            }
            i = i + 1;
        }
        i
    }

    /// Put a value under a key, returning what the key held before.
    pub fn insert(&mut self, key: u64, value: V) -> (prev: Option<V>)
        requires
            old(self).wf(),
        ensures
            final(self).wf(),
            final(self).as_map() == old(self).as_map().insert(key, value),
            match prev {
                Some(v) => old(self).as_map().contains_key(key) && v == old(self).as_map()[key],
                None => !old(self).as_map().contains_key(key),
            },
    {
        let ghost s0 = *old(self);
        let i = self.lower_bound(key);
        let n = self.entries.len();
        if i < n && self.entries[i].0 == key {
            proof {
                s0.lemma_entry_maps(i as int);
            }
            let (_k0, v0) = self.entries.remove(i);
            self.entries.insert(i, (key, value));
            proof {
                assert(self.entries@ =~= s0.entries@.update(i as int, (key, value)));
                self.lemma_insert_at(s0, i as int, key, value);
            }
            Some(v0)
        } else {
            proof {
                assert forall|j: int| 0 <= j < s0.entries@.len() implies s0.entries@[j].0 != key by {
                    if j > i {
                        assert(s0.entries@[i as int].0 < s0.entries@[j].0);
                    }
                }
                assert(!s0.key_seq().contains(key));
            }
            self.entries.insert(i, (key, value));
            proof {
                self.lemma_insert_fresh(s0, i as int, key, value);
            }
            None
        }
    }

    /// After replacing the entry at an index that already held `key`,
    /// the map is the old map with `key` re-bound.
    proof fn lemma_insert_at(self, s0: Self, i: int, key: u64, value: V)
        requires
            s0.wf(),
            0 <= i < s0.entries@.len(),
            s0.entries@[i].0 == key,
            self.entries@ == s0.entries@.update(i, (key, value)),
        ensures
            self.wf(),
            self.as_map() == s0.as_map().insert(key, value),
    {
        assert(self.wf());
        assert(self.key_seq() =~= s0.key_seq());
        assert forall|k2: u64| #[trigger] self.as_map().contains_key(k2)
            == s0.as_map().insert(key, value).contains_key(k2) by {
            assert(s0.key_seq()[i] == key);
            assert(s0.key_seq().contains(key));
            assert(s0.as_map().contains_key(key));
        }
        assert forall|k2: u64| self.as_map().contains_key(k2)
            implies #[trigger] self.as_map()[k2] == s0.as_map().insert(key, value)[k2] by {
            let j = choose|j: int| 0 <= j < self.entries@.len() && self.entries@[j].0 == k2;
            self.lemma_entry_maps(j);
            if j == i {
                assert(k2 == key);
                assert(self.as_map()[k2] == value);
            } else {
                assert(s0.entries@[j] == self.entries@[j]);
                s0.lemma_entry_maps(j);
                if k2 == key {
                    assert(s0.entries@[j].0 == s0.entries@[i].0);
                    assert(j == i);
                }
            }
        }
        assert(self.as_map() =~= s0.as_map().insert(key, value));
    }

    /// After inserting a fresh key at its sorted position, the map is
    /// the old map extended with that key.
    proof fn lemma_insert_fresh(self, s0: Self, i: int, key: u64, value: V)
        requires
            s0.wf(),
            0 <= i <= s0.entries@.len(),
            forall|j: int| 0 <= j < i ==> s0.entries@[j].0 < key,
            i < s0.entries@.len() ==> s0.entries@[i].0 > key,
            self.entries@ == s0.entries@.insert(i, (key, value)),
        ensures
            self.wf(),
            self.as_map() == s0.as_map().insert(key, value),
    {
        assert forall|p: int, q: int|
            0 <= p < q < self.entries@.len() implies self.entries@[p].0 < self.entries@[q].0 by {
            if p < i && q > i {
                assert(s0.entries@[p].0 < key);
                assert(s0.entries@[q - 1].0 > key || s0.entries@[q - 1] == s0.entries@[i]);
                if q - 1 > i {
                    assert(s0.entries@[i].0 < s0.entries@[q - 1].0);
                }
            }
        }
        assert(self.wf());
        assert forall|k2: u64| #[trigger] self.as_map().contains_key(k2)
            == s0.as_map().insert(key, value).contains_key(k2) by {
            if self.as_map().contains_key(k2) {
                let j = choose|j: int| 0 <= j < self.entries@.len() && self.entries@[j].0 == k2;
                if j < i {
                    assert(s0.key_seq()[j] == k2);
                    assert(s0.key_seq().contains(k2));
                } else if j > i {
                    assert(s0.key_seq()[j - 1] == k2);
                    assert(s0.key_seq().contains(k2));
                }
            }
            if k2 == key {
                assert(self.key_seq()[i] == key);
                assert(self.key_seq().contains(k2));
            }
            if s0.as_map().contains_key(k2) {
                let j = choose|j: int| 0 <= j < s0.entries@.len() && s0.entries@[j].0 == k2;
                if j < i {
                    assert(self.key_seq()[j] == k2);
                } else {
                    assert(self.entries@[j + 1] == s0.entries@[j]);
                    assert(self.key_seq()[j + 1] == k2);
                }
                assert(self.key_seq().contains(k2));
            }
        }
        assert forall|k2: u64| self.as_map().contains_key(k2)
            implies #[trigger] self.as_map()[k2] == s0.as_map().insert(key, value)[k2] by {
            let j = choose|j: int| 0 <= j < self.entries@.len() && self.entries@[j].0 == k2;
            self.lemma_entry_maps(j);
            if j == i {
                assert(k2 == key);
            } else if j < i {
                assert(s0.entries@[j] == self.entries@[j]);
                s0.lemma_entry_maps(j);
                assert(s0.entries@[j].0 < key);
            } else {
                assert(s0.entries@[j - 1] == self.entries@[j]);
                s0.lemma_entry_maps(j - 1);
                if j - 1 >= i && i < s0.entries@.len() {
                    assert(k2 != key);
                }
            }
        }
        assert(self.as_map() =~= s0.as_map().insert(key, value));
    }

    /// Delete a key, returning what it held or absence.
    pub fn remove(&mut self, key: u64) -> (r: Option<V>)
        requires
            old(self).wf(),
        ensures
            final(self).wf(),
            final(self).as_map() == old(self).as_map().remove(key),
            match r {
                Some(v) => old(self).as_map().contains_key(key) && v == old(self).as_map()[key],
                None => !old(self).as_map().contains_key(key) && *final(self) == *old(self),
            },
    {
        let ghost s0 = *old(self);
        match self.index_of(key) {
            Some(i) => {
                proof {
                    s0.lemma_entry_maps(i as int);
                }
                let (_k0, v0) = self.entries.remove(i);
                proof {
                    self.lemma_remove_at(s0, i as int, key);
                }
                Some(v0)
            }
            None => {
                proof {
                    self.lemma_absent(key);
                    assert(s0.as_map() =~= s0.as_map().remove(key));
                }
                None
            }
        }
    }

    /// After deleting the entry at the index that held `key`, the map
    /// is the old map without that key.
    proof fn lemma_remove_at(self, s0: Self, i: int, key: u64)
        requires
            s0.wf(),
            0 <= i < s0.entries@.len(),
            s0.entries@[i].0 == key,
            self.entries@ == s0.entries@.remove(i),
        ensures
            self.wf(),
            self.as_map() == s0.as_map().remove(key),
    {
        assert(self.wf());
        assert forall|k2: u64| #[trigger] self.as_map().contains_key(k2)
            == s0.as_map().remove(key).contains_key(k2) by {
            if self.as_map().contains_key(k2) {
                let j = choose|j: int| 0 <= j < self.entries@.len() && self.entries@[j].0 == k2;
                if j < i {
                    assert(s0.key_seq()[j] == k2);
                    if k2 == key {
                        assert(s0.entries@[j].0 < s0.entries@[i].0);
                    }
                } else {
                    assert(self.entries@[j] == s0.entries@[j + 1]);
                    assert(s0.key_seq()[j + 1] == k2);
                    if k2 == key {
                        assert(s0.entries@[i].0 < s0.entries@[j + 1].0);
                    }
                }
                assert(s0.key_seq().contains(k2));
            }
            if s0.as_map().contains_key(k2) && k2 != key {
                let j = choose|j: int| 0 <= j < s0.entries@.len() && s0.entries@[j].0 == k2;
                if j < i {
                    assert(self.key_seq()[j] == k2);
                } else {
                    assert(j > i);
                    assert(self.entries@[j - 1] == s0.entries@[j]);
                    assert(self.key_seq()[j - 1] == k2);
                }
                assert(self.key_seq().contains(k2));
            }
        }
        assert forall|k2: u64| self.as_map().contains_key(k2)
            implies #[trigger] self.as_map()[k2] == s0.as_map().remove(key)[k2] by {
            let j = choose|j: int| 0 <= j < self.entries@.len() && self.entries@[j].0 == k2;
            self.lemma_entry_maps(j);
            if j < i {
                assert(s0.entries@[j] == self.entries@[j]);
                s0.lemma_entry_maps(j);
                if k2 == key {
                    assert(s0.entries@[j].0 < s0.entries@[i].0);
                }
            } else {
                assert(s0.entries@[j + 1] == self.entries@[j]);
                s0.lemma_entry_maps(j + 1);
                if k2 == key {
                    assert(s0.entries@[i].0 < s0.entries@[j + 1].0);
                }
            }
        }
        assert(self.as_map() =~= s0.as_map().remove(key));
    }

    /// The entry at an index of the storage order: its key is the
    /// index-th key, every earlier key is smaller, and its value is
    /// what the map holds under that key.
    pub fn pair_at(&self, i: usize) -> (p: &(u64, V))
        requires
            self.wf(),
            i < self.key_seq().len(),
        ensures
            p.0 == self.key_seq()[i as int],
            self.as_map().contains_key(p.0),
            p.1 == self.as_map()[p.0],
            forall|j: int| 0 <= j < i ==> self.key_seq()[j] < p.0,
    {
        proof {
            self.lemma_entry_maps(i as int);
        }
        &self.entries[i]
    }
}

} // verus!
