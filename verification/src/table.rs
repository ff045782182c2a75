//! Keyed tables that stand for the contracts' persistent storage maps: one
//! keyed by `u64` identifiers and one keyed by byte strings (addresses and
//! backend reference keys). Each holds at most one entry per key.
use vstd::prelude::*;

use crate::common::{bytes_eq, copy_bytes, copy_ids};

verus! {

/// A table from `u64` identifiers to values.
pub struct IdTable<V> {
    entries: Vec<(u64, V)>,
}

impl<V: View> IdTable<V> {
    /// No key occurs twice.
    pub closed spec fn wf(&self) -> bool {
        forall|i: int, j: int|
            0 <= i < self.entries@.len() && 0 <= j < self.entries@.len() && i != j
                ==> #[trigger] self.entries@[i].0 != #[trigger] self.entries@[j].0
    }

    closed spec fn has(&self, k: u64) -> bool {
        exists|i: int| 0 <= i < self.entries@.len() && #[trigger] self.entries@[i].0 == k
    }

    closed spec fn index_of(&self, k: u64) -> int {
        choose|i: int| 0 <= i < self.entries@.len() && #[trigger] self.entries@[i].0 == k
    }

    /// The table as a map from key to the value's view.
    pub closed spec fn view(&self) -> Map<u64, V::V> {
        Map::new(|k: u64| self.has(k), |k: u64| self.entries@[self.index_of(k)].1@)
    }

    pub fn new() -> (r: Self)
        ensures
            r.wf(),
            r.view() == Map::<u64, V::V>::empty(),
    {
        let r = IdTable { entries: Vec::new() };
        assert(r.view() =~= Map::<u64, V::V>::empty());
        r
    }

    fn find(&self, k: u64) -> (r: Option<usize>)
        requires
            self.wf(),
        ensures
            r is None ==> !self.has(k),
            r matches Some(i) ==> i < self.entries@.len() && self.entries@[i as int].0 == k
                && self.index_of(k) == i,
    {
        let n = self.entries.len();
        let mut i: usize = 0;
        while i < n
            invariant
                self.wf(),
                n == self.entries@.len(),
                i <= n,
                forall|j: int| 0 <= j < i ==> self.entries@[j].0 != k,
            decreases n - i,
        {
            if self.entries[i].0 == k {
                assert(self.has(k));
                let ghost w = self.index_of(k);
                assert(self.entries@[w].0 == k);
                assert(w == i);
                return Some(i);
            }
            i = i + 1;
        }
        None
    }

    /// The value stored under `k`, if any.
    pub fn get(&self, k: u64) -> (r: Option<&V>)
        requires
            self.wf(),
        ensures
            r is None <==> !self.view().contains_key(k),
            r matches Some(v) ==> v@ == self.view()[k],
    {
        match self.find(k) {
            Some(i) => Some(&self.entries[i].1),
            None => None,
        }
    }

    /// Whether a value is stored under `k`.
    pub fn contains(&self, k: u64) -> (r: bool)
        requires
            self.wf(),
        ensures
            r == self.view().contains_key(k),
    {
        self.find(k).is_some()
    }

    /// Stores `v` under `k`, replacing what was stored there.
    pub fn put(&mut self, k: u64, v: V)
        requires
            old(self).wf(),
        ensures
            final(self).wf(),
            final(self).view() == old(self).view().insert(k, v@),
    {
        let ghost v_view = v@;
        let ghost before = *self;
        match self.find(k) {
            Some(i) => {
                self.entries.set(i, (k, v));
                assert forall|kk: u64| #![trigger self.has(kk)] kk != k implies (self.has(kk) == before.has(kk)
                    && (self.has(kk) ==> self.index_of(kk) == before.index_of(kk))) by {
                    if before.has(kk) {
                        let w = before.index_of(kk);
                        assert(self.entries@[w].0 == kk);
                    }
                    if self.has(kk) {
                        let w = self.index_of(kk);
                        assert(before.entries@[w].0 == kk);
                    }
                }
                assert(self.has(k)) by {
                    assert(self.entries@[i as int].0 == k);
                }
                assert(self.index_of(k) == i);
            },
            None => {
                self.entries.push((k, v));
                let last = self.entries.len() - 1;
                assert(self.entries@[last as int].0 == k);
                assert forall|kk: u64| #![trigger self.has(kk)] kk != k implies (self.has(kk) == before.has(kk)
                    && (self.has(kk) ==> self.index_of(kk) == before.index_of(kk))) by {
                    if before.has(kk) {
                        let w = before.index_of(kk);
                        assert(self.entries@[w].0 == kk);
                    }
                    if self.has(kk) {
                        let w = self.index_of(kk);
                        assert(w != last);
                        assert(before.entries@[w].0 == kk);
                    }
                }
                assert(self.has(k));
                assert(self.index_of(k) == last as int);
            },
        }
        assert(self.view() =~= before.view().insert(k, v_view));
    }
}

/// A table from byte-string keys to values.
pub struct KeyTable<V> {
    entries: Vec<(Vec<u8>, V)>,
}

impl<V: View> KeyTable<V> {
    /// No key occurs twice.
    pub closed spec fn wf(&self) -> bool {
        forall|i: int, j: int|
            0 <= i < self.entries@.len() && 0 <= j < self.entries@.len() && i != j
                ==> #[trigger] self.entries@[i].0@ != #[trigger] self.entries@[j].0@
    }

    closed spec fn has(&self, k: Seq<u8>) -> bool {
        exists|i: int| 0 <= i < self.entries@.len() && #[trigger] self.entries@[i].0@ == k
    }

    closed spec fn index_of(&self, k: Seq<u8>) -> int {
        choose|i: int| 0 <= i < self.entries@.len() && #[trigger] self.entries@[i].0@ == k
    }

    /// The table as a map from key bytes to the value's view.
    pub closed spec fn view(&self) -> Map<Seq<u8>, V::V> {
        Map::new(|k: Seq<u8>| self.has(k), |k: Seq<u8>| self.entries@[self.index_of(k)].1@)
    }

    pub fn new() -> (r: Self)
        ensures
            r.wf(),
            r.view() == Map::<Seq<u8>, V::V>::empty(),
    {
        let r = KeyTable { entries: Vec::new() };
        assert(r.view() =~= Map::<Seq<u8>, V::V>::empty());
        r
    }

    fn find(&self, k: &Vec<u8>) -> (r: Option<usize>)
        requires
            self.wf(),
        ensures
            r is None ==> !self.has(k@),
            r matches Some(i) ==> i < self.entries@.len() && self.entries@[i as int].0@ == k@
                && self.index_of(k@) == i,
    {
        let n = self.entries.len();
        let mut i: usize = 0;
        while i < n
            invariant
                self.wf(),
                n == self.entries@.len(),
                i <= n,
                forall|j: int| 0 <= j < i ==> self.entries@[j].0@ != k@,
            decreases n - i,
        {
            if bytes_eq(&self.entries[i].0, k) {
                assert(self.has(k@));
                let ghost w = self.index_of(k@);
                assert(self.entries@[w].0@ == k@);
                assert(w == i);
                return Some(i);
            }
            i = i + 1;
        }
        None
    }

    /// The value stored under `k`, if any.
    pub fn get(&self, k: &Vec<u8>) -> (r: Option<&V>)
        requires
            self.wf(),
        ensures
            r is None <==> !self.view().contains_key(k@),
            r matches Some(v) ==> v@ == self.view()[k@],
    {
        match self.find(k) {
            Some(i) => Some(&self.entries[i].1),
            None => None,
        }
    }

    /// Whether a value is stored under `k`.
    pub fn contains(&self, k: &Vec<u8>) -> (r: bool)
        requires
            self.wf(),
        ensures
            r == self.view().contains_key(k@),
    {
        self.find(k).is_some()
    }

    /// Stores `v` under `k`, replacing what was stored there.
    pub fn put(&mut self, k: &Vec<u8>, v: V)
        requires
            old(self).wf(),
        ensures
            final(self).wf(),
            final(self).view() == old(self).view().insert(k@, v@),
    {
        let ghost v_view = v@;
        let ghost before = *self;
        match self.find(k) {
            Some(i) => {
                self.entries.set(i, (copy_bytes(k), v));
                assert forall|kk: Seq<u8>| #![trigger self.has(kk)] kk != k@ implies (self.has(kk) == before.has(kk)
                    && (self.has(kk) ==> self.index_of(kk) == before.index_of(kk))) by {
                    if before.has(kk) {
                        let w = before.index_of(kk);
                        assert(self.entries@[w].0@ == kk);
                    }
                    if self.has(kk) {
                        let w = self.index_of(kk);
                        assert(before.entries@[w].0@ == kk);
                    }
                }
                assert(self.has(k@)) by {
                    assert(self.entries@[i as int].0@ == k@);
                }
                assert(self.index_of(k@) == i);
            },
            None => {
                self.entries.push((copy_bytes(k), v));
                let last = self.entries.len() - 1;
                assert(self.entries@[last as int].0@ == k@);
                assert forall|kk: Seq<u8>| #![trigger self.has(kk)] kk != k@ implies (self.has(kk) == before.has(kk)
                    && (self.has(kk) ==> self.index_of(kk) == before.index_of(kk))) by {
                    if before.has(kk) {
                        let w = before.index_of(kk);
                        assert(self.entries@[w].0@ == kk);
                    }
                    if self.has(kk) {
                        let w = self.index_of(kk);
                        assert(w != last);
                        assert(before.entries@[w].0@ == kk);
                    }
                }
                assert(self.has(k@));
                assert(self.index_of(k@) == last as int);
            },
        }
        assert(self.view() =~= before.view().insert(k@, v_view));
    }
}

/// The identifiers listed under `k`, or none when nothing is listed there.
pub open spec fn listed(m: Map<Seq<u8>, Seq<u64>>, k: Seq<u8>) -> Seq<u64> {
    if m.contains_key(k) {
        m[k]
    } else {
        Seq::empty()
    }
}

impl KeyTable<Vec<u64>> {
    /// The identifiers listed under `k`, oldest first.
    pub fn ids(&self, k: &Vec<u8>) -> (r: Vec<u64>)
        requires
            self.wf(),
        ensures
            r@ == listed(self.view(), k@),
    {
        match self.get(k) {
            Some(list) => copy_ids(list),
            None => Vec::new(),
        }
    }

    /// Appends `id` to the list under `k`, starting the list if there is none.
    pub fn append(&mut self, k: &Vec<u8>, id: u64)
        requires
            old(self).wf(),
        ensures
            final(self).wf(),
            final(self).view() == old(self).view().insert(k@, listed(old(self).view(), k@).push(id)),
    {
        let mut list = self.ids(k);
        list.push(id);
        self.put(k, list);
    }
}

} // verus!
