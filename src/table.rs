//! A keyed collection with unique keys, viewed as a finite map.
use vstd::prelude::*;
use crate::bytes::Bytes32;
use crate::ids::{Id, ProjectId};

verus! {

/// A value that a table can hand out copies of.
pub trait Stored: Sized + View {
    fn duplicate(&self) -> (r: Self)
        ensures
            r@ == self@;
}

/// A value that can key a table: it can be copied and compared by its view.
pub trait TableKey: Stored {
    fn same_key(&self, other: &Self) -> (r: bool)
        ensures
            r == (self@ == other@);
}

impl Stored for u128 {
    fn duplicate(&self) -> (r: u128) {
        *self
    }
}

impl Stored for u64 {
    fn duplicate(&self) -> (r: u64) {
        *self
    }
}

impl Stored for () {
    fn duplicate(&self) -> (r: ()) {
        ()
    }
}

impl Stored for Bytes32 {
    fn duplicate(&self) -> (r: Bytes32) {
        *self
    }
}

impl TableKey for Bytes32 {
    fn same_key(&self, other: &Bytes32) -> (r: bool) {
        self.same(other)
    }
}

impl Stored for Id {
    fn duplicate(&self) -> (r: Id) {
        Id::duplicate(self)
    }
}

impl TableKey for Id {
    fn same_key(&self, other: &Id) -> (r: bool) {
        self.same(other)
    }
}

impl Stored for ProjectId {
    fn duplicate(&self) -> (r: ProjectId) {
        (self.0.duplicate(), self.1.duplicate())
    }
}

impl TableKey for ProjectId {
    fn same_key(&self, other: &ProjectId) -> (r: bool) {
        self.0.same(&other.0) && self.1.same(&other.1)
    }
}

/// Entries with pairwise distinct keys, in no particular order.
pub struct Table<K, V> {
    pub entries: Vec<(K, V)>,
}

impl<K: TableKey, V: Stored> View for Table<K, V> {
    type V = Map<K::V, V::V>;

    open spec fn view(&self) -> Map<K::V, V::V> {
        Map::new(|k: K::V| self.has(k), |k: K::V| self.entries@[self.index_of(k)].1@)
    }
}

impl<K: TableKey, V: Stored> Table<K, V> {
    /// No two entries share a key.
    pub open spec fn wf(&self) -> bool {
        forall|i: int, j: int|
            0 <= i < self.entries@.len() && 0 <= j < self.entries@.len() && i != j
                ==> #[trigger] self.entries@[i].0@ != #[trigger] self.entries@[j].0@
    }

    /// The key of the entry at `i`.
    pub open spec fn key_at(&self, i: int) -> K::V {
        self.entries@[i].0@
    }

    /// Some entry has key `k`.
    pub open spec fn has(&self, k: K::V) -> bool {
        exists|i: int| 0 <= i < self.entries@.len() && #[trigger] self.key_at(i) == k
    }

    /// The position of the entry with key `k`.
    pub open spec fn index_of(&self, k: K::V) -> int {
        choose|i: int| 0 <= i < self.entries@.len() && #[trigger] self.key_at(i) == k
    }

    /// The entry at `i` is what the map holds at its key.
    pub proof fn lemma_entry(&self, i: int)
        requires
            self.wf(),
            0 <= i < self.entries@.len(),
        ensures
            self@.contains_key(self.key_at(i)),
            self@[self.key_at(i)] == self.entries@[i].1@,
            self.index_of(self.key_at(i)) == i,
    {
        assert(self.has(self.key_at(i)));
        let j = self.index_of(self.key_at(i));
        assert(self.key_at(j) == self.key_at(i));
    }

    /// Every key of the map is the key of some entry.
    pub proof fn lemma_key(&self, k: K::V)
        requires
            self.wf(),
            self@.contains_key(k),
        ensures
            0 <= self.index_of(k) < self.entries@.len(),
            self.key_at(self.index_of(k)) == k,
            self@[k] == self.entries@[self.index_of(k)].1@,
    {
    }

    /// The keys of the entries, in table order.
    pub open spec fn key_seq(&self) -> Seq<K::V> {
        self.entries@.map_values(|e: (K, V)| e.0@)
    }

    /// The map has exactly one key per entry.
    pub proof fn lemma_len(&self)
        requires
            self.wf(),
        ensures
            self@.dom().finite(),
            self@.dom().len() == self.entries@.len(),
    {
        let keys = self.key_seq();
        assert forall|i: int, j: int| 0 <= i < keys.len() && 0 <= j < keys.len() && i != j
            implies keys[i] != keys[j] by {
            assert(keys[i] == self.key_at(i));
            assert(keys[j] == self.key_at(j));
        }
        assert(keys.no_duplicates());
        keys.unique_seq_to_set();
        assert forall|k: K::V| #[trigger] keys.to_set().contains(k) == self@.dom().contains(k) by {
            if keys.to_set().contains(k) {
                let i = choose|i: int| 0 <= i < keys.len() && keys[i] == k;
                assert(self.key_at(i) == k);
            }
            if self@.dom().contains(k) {
                let i = self.index_of(k);
                assert(keys[i] == k);
            }
        }
        assert(keys.to_set() =~= self@.dom());
    }

    /// An empty table.
    pub fn new() -> (r: Table<K, V>)
        ensures
            r.wf(),
            r@ == Map::<K::V, V::V>::empty(),
    {
        let r = Table { entries: Vec::new() };
        assert(r@ =~= Map::<K::V, V::V>::empty());
        r
    }

    /// Number of entries.
    pub fn len(&self) -> (r: usize)
        requires
            self.wf(),
        ensures
            r == self.entries@.len(),
    {
        self.entries.len()
    }

    /// The position of the entry with key `k`, if any.
    pub fn find(&self, k: &K) -> (r: Option<usize>)
        requires
            self.wf(),
        ensures
            r is None <==> !self@.contains_key(k@),
            r matches Some(i) ==> i < self.entries@.len() && self.key_at(i as int) == k@
                && i == self.index_of(k@),
    {
        let mut i: usize = 0;
        while i < self.entries.len()
            invariant
                self.wf(),
                0 <= i <= self.entries@.len(),
                forall|j: int| 0 <= j < i ==> #[trigger] self.key_at(j) != k@,
            decreases self.entries@.len() - i,
        {
            if self.entries[i].0.same_key(k) {
                proof {
                    self.lemma_entry(i as int);
                }
                return Some(i);
            }
            i = i + 1;
        }
        None
    }

    /// Whether some entry has key `k`.
    pub fn contains(&self, k: &K) -> (r: bool)
        requires
            self.wf(),
        ensures
            r == self@.contains_key(k@),
    {
        self.find(k).is_some()
    }

    /// A copy of the value stored under `k`, if any.
    pub fn get(&self, k: &K) -> (r: Option<V>)
        requires
            self.wf(),
        ensures
            r is None <==> !self@.contains_key(k@),
            r matches Some(v) ==> self@.contains_key(k@) && v@ == self@[k@],
    {
        match self.find(k) {
            Some(i) => {
                proof {
                    self.lemma_entry(i as int);
                }
                Some(self.entries[i].1.duplicate())
            },
            None => None,
        }
    }

    /// Stores `v` under `k`, replacing what was there.
    pub fn insert(&mut self, k: K, v: V)
        requires
            old(self).wf(),
        ensures
            final(self).wf(),
            final(self)@ == old(self)@.insert(k@, v@),
    {
        let ghost kv = k@;
        let ghost vv = v@;
        match self.find(&k) {
            Some(i) => {
                self.entries.set(i, (k, v));
                proof {
                    assert forall|a: int, b: int|
                        0 <= a < self.entries@.len() && 0 <= b < self.entries@.len() && a != b
                            implies #[trigger] self.entries@[a].0@ != #[trigger] self.entries@[b].0@ by {
                        assert(old(self).entries@[a].0@ != old(self).entries@[b].0@);
                    }
                    assert forall|q: K::V| #[trigger] self.has(q) == old(self)@.insert(kv, vv).contains_key(q) by {
                        if self.has(q) {
                            let j = self.index_of(q);
                            if j != i {
                                assert(old(self).key_at(j) == q);
                            }
                        }
                        if old(self).has(q) {
                            let j = old(self).index_of(q);
                            assert(self.key_at(j) == q);
                        }
                        if q == kv {
                            assert(self.key_at(i as int) == q);
                        }
                    }
                    assert forall|q: K::V| #[trigger] self.has(q) implies self@[q] == old(self)@.insert(kv, vv)[q] by {
                        let j = self.index_of(q);
                        self.lemma_entry(j);
                        if j != i {
                            old(self).lemma_entry(j);
                        }
                    }
                    assert(self@ =~= old(self)@.insert(kv, vv));
                }
            },
            None => {
                self.entries.push((k, v));
                proof {
                    let n = old(self).entries@.len() as int;
                    assert forall|a: int, b: int|
                        0 <= a < self.entries@.len() && 0 <= b < self.entries@.len() && a != b
                            implies #[trigger] self.entries@[a].0@ != #[trigger] self.entries@[b].0@ by {
                        if a < n && b < n {
                            assert(old(self).entries@[a].0@ != old(self).entries@[b].0@);
                        } else if a < n {
                            old(self).lemma_entry(a);
                        } else {
                            old(self).lemma_entry(b);
                        }
                    }
                    assert forall|q: K::V| #[trigger] self.has(q) == old(self)@.insert(kv, vv).contains_key(q) by {
                        if self.has(q) {
                            let j = self.index_of(q);
                            if j != n {
                                assert(old(self).key_at(j) == q);
                            }
                        }
                        if old(self).has(q) {
                            let j = old(self).index_of(q);
                            assert(self.key_at(j) == q);
                        }
                        if q == kv {
                            assert(self.key_at(n) == q);
                        }
                    }
                    assert forall|q: K::V| #[trigger] self.has(q) implies self@[q] == old(self)@.insert(kv, vv)[q] by {
                        let j = self.index_of(q);
                        self.lemma_entry(j);
                        if j != n {
                            old(self).lemma_entry(j);
                        }
                    }
                    assert(self@ =~= old(self)@.insert(kv, vv));
                }
            },
        }
    }

    /// Removes the entry with key `k`, if any.
    pub fn remove(&mut self, k: &K)
        requires
            old(self).wf(),
        ensures
            final(self).wf(),
            final(self)@ == old(self)@.remove(k@),
    {
        match self.find(k) {
            Some(i) => {
                self.entries.remove(i);
                proof {
                    let ii = i as int;
                    let old_entries = old(self).entries@;
                    assert forall|j: int| 0 <= j < self.entries@.len() implies
                        #[trigger] self.key_at(j) == (if j < ii { old(self).key_at(j) } else { old(self).key_at(j + 1) })
                        && self.entries@[j].1@ == (if j < ii { old_entries[j].1@ } else { old_entries[j + 1].1@ }) by {
                    }
                    assert forall|a: int, b: int|
                        0 <= a < self.entries@.len() && 0 <= b < self.entries@.len() && a != b
                            implies #[trigger] self.entries@[a].0@ != #[trigger] self.entries@[b].0@ by {
                        let a2 = if a < ii { a } else { a + 1 };
                        let b2 = if b < ii { b } else { b + 1 };
                        assert(self.key_at(a) == old(self).key_at(a2));
                        assert(self.key_at(b) == old(self).key_at(b2));
                    }
                    assert forall|q: K::V| #[trigger] self.has(q) == old(self)@.remove(k@).contains_key(q) by {
                        if self.has(q) {
                            let j = self.index_of(q);
                            let j2 = if j < ii { j } else { j + 1 };
                            assert(old(self).key_at(j2) == q);
                            assert(j2 != ii);
                        }
                        if old(self).has(q) && q != k@ {
                            let j = old(self).index_of(q);
                            assert(j != ii);
                            let j2 = if j < ii { j } else { j - 1 };
                            assert(self.key_at(j2) == q);
                        }
                    }
                    assert forall|q: K::V| #[trigger] self.has(q) implies self@[q] == old(self)@.remove(k@)[q] by {
                        let j = self.index_of(q);
                        self.lemma_entry(j);
                        let j2 = if j < ii { j } else { j + 1 };
                        old(self).lemma_entry(j2);
                    }
                    assert(self@ =~= old(self)@.remove(k@));
                }
            },
            None => {
                assert(self@ =~= old(self)@.remove(k@));
            },
        }
    }

    /// The keys of all entries, in table order.
    pub fn keys(&self) -> (r: Vec<K>)
        requires
            self.wf(),
        ensures
            r@.len() == self.entries@.len(),
            forall|i: int| 0 <= i < r@.len() ==> #[trigger] r@[i]@ == self.key_at(i),
    {
        let mut r: Vec<K> = Vec::new();
        let mut i: usize = 0;
        while i < self.entries.len()
            invariant
                0 <= i <= self.entries@.len(),
                r@.len() == i,
                forall|j: int| 0 <= j < i ==> #[trigger] r@[j]@ == self.key_at(j),
            decreases self.entries@.len() - i,
        {
            r.push(self.entries[i].0.duplicate());
            i = i + 1;
        }
        r
    }
}

} // verus!
