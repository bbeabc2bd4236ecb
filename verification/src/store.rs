//! A key-addressed table of records.
//!
//! A table holds at most one record per address. In contracts it is the map
//! from the bytes of an address to the view of the record stored there.

use crate::address::Address;
use vstd::prelude::*;

verus! {

/// One stored record and the address it lives at.
pub struct Entry<V> {
    pub key: Address,
    pub value: V,
}

/// Records of one kind, each at its own address.
pub struct Table<V> {
    entries: Vec<Entry<V>>,
}

impl<V: View> Table<V> {
    /// No address occurs twice.
    pub closed spec fn wf(&self) -> bool {
        forall|i: int, j: int|
            0 <= i < j < self.entries@.len() ==> self.entries@[i].key@ != self.entries@[j].key@
    }

    spec fn holds(self, key: Seq<u8>) -> bool {
        exists|i: int| 0 <= i < self.entries@.len() && self.entries@[i].key@ == key
    }

    spec fn slot(self, key: Seq<u8>) -> int {
        choose|i: int| 0 <= i < self.entries@.len() && self.entries@[i].key@ == key
    }

    /// The table as a map from address bytes to the record's view.
    pub closed spec fn view(&self) -> Map<Seq<u8>, V::V> {
        Map::new(|k: Seq<u8>| self.holds(k), |k: Seq<u8>| self.entries@[self.slot(k)].value@)
    }

    /// An empty table.
    pub fn new() -> (t: Table<V>)
        ensures
            t.wf(),
            t@ == Map::<Seq<u8>, V::V>::empty(),
    {
        let t = Table { entries: Vec::new() };
        assert(t@ =~= Map::<Seq<u8>, V::V>::empty());
        t
    }

    fn position(&self, key: &Address) -> (at: Option<usize>)
        requires
            self.wf(),
        ensures
            match at {
                Some(i) => i < self.entries@.len() && self.entries@[i as int].key@ == key@
                    && self.holds(key@) && self.slot(key@) == i,
                None => !self.holds(key@),
            },
    {
        let mut i: usize = 0;
        while i < self.entries.len()
            invariant
                self.wf(),
                i <= self.entries@.len(),
                forall|j: int| 0 <= j < i ==> self.entries@[j].key@ != key@,
            decreases self.entries@.len() - i,
        {
            if self.entries[i].key.same(key) {
                assert(self.entries@[i as int].key@ == key@);
                return Some(i);
            }
            i += 1;
        }
        None
    }

    /// Whether a record is stored at `key`.
    pub fn contains(&self, key: &Address) -> (r: bool)
        requires
            self.wf(),
        ensures
            r == self@.contains_key(key@),
    {
        self.position(key).is_some()
    }

    /// The record stored at `key`, if any.
    pub fn get(&self, key: &Address) -> (r: Option<&V>)
        requires
            self.wf(),
        ensures
            match r {
                Some(v) => self@.contains_key(key@) && v@ == self@[key@],
                None => !self@.contains_key(key@),
            },
    {
        match self.position(key) {
            Some(i) => Some(&self.entries[i].value),
            None => None,
        }
    }

    /// Removes and returns the record stored at `key`, if any.
    pub fn take(&mut self, key: &Address) -> (r: Option<V>)
        requires
            old(self).wf(),
        ensures
            final(self).wf(),
            final(self)@ == old(self)@.remove(key@),
            match r {
                Some(v) => old(self)@.contains_key(key@) && v@ == old(self)@[key@],
                None => !old(self)@.contains_key(key@),
            },
    {
        let ghost before = *self;
        match self.position(key) {
            Some(i) => {
                let entry = self.entries.swap_remove(i);
                proof {
                    let after = *self;
                    let n = after.entries@.len() as int;
                    assert forall|k: Seq<u8>| #[trigger]
                        after.holds(k) == (k != key@ && before.holds(k)) by {
                        if before.holds(k) && k != key@ {
                            let s = before.slot(k);
                            if s < n {
                                if after.entries@[s].key@ != k {
                                    assert(after.entries@[i as int].key@ == k);
                                }
                            } else {
                                assert(after.entries@[i as int].key@ == k);
                            }
                        }
                    }
                    assert forall|k: Seq<u8>| after.holds(k) implies #[trigger] after@[k]
                        == before@[k] by {
                        let s = after.slot(k);
                        let b = before.slot(k);
                        assert(before.entries@[b].key@ == k);
                    }
                    assert(after@ =~= before@.remove(key@));
                }
                Some(entry.value)
            },
            None => {
                assert(self@ =~= before@.remove(key@));
                None
            },
        }
    }

    /// Stores `value` at `key` unless a record is stored there already, and
    /// says whether it did.
    pub fn insert_if_absent(&mut self, key: Address, value: V) -> (inserted: bool)
        requires
            old(self).wf(),
        ensures
            final(self).wf(),
            inserted == !old(self)@.contains_key(key@),
            final(self)@ == if inserted {
                old(self)@.insert(key@, value@)
            } else {
                old(self)@
            },
    {
        if self.contains(&key) {
            false
        } else {
            self.put(key, value);
            true
        }
    }

    /// Stores `value` at `key`, replacing what was there.
    pub fn put(&mut self, key: Address, value: V)
        requires
            old(self).wf(),
        ensures
            final(self).wf(),
            final(self)@ == old(self)@.insert(key@, value@),
    {
        let ghost before = *self;
        match self.position(&key) {
            Some(i) => {
                let _ = self.entries.swap_remove(i);
                self.entries.push(Entry { key, value });
            },
            None => {
                self.entries.push(Entry { key, value });
            },
        }
        proof {
            let after = *self;
            assert forall|k: Seq<u8>| #[trigger] after.holds(k) == (k == key@ || before.holds(k)) by {
                let n = after.entries@.len() as int;
                if before.holds(k) && k != key@ {
                    let s = before.slot(k);
                    if s < n - 1 {
                        if after.entries@[s].key@ != k {
                            assert(after.entries@[before.slot(key@)].key@ == k);
                        }
                    } else {
                        assert(after.entries@[before.slot(key@)].key@ == k);
                    }
                }
                if k == key@ {
                    assert(after.entries@[n - 1].key@ == k);
                }
            }
            assert forall|k: Seq<u8>| after.holds(k) implies #[trigger] after@[k] == before@.insert(
                key@,
                value@,
            )[k] by {
                let s = after.slot(k);
                if k != key@ {
                    let b = before.slot(k);
                    assert(before.entries@[b].key@ == k);
                }
            }
            assert(after@ =~= before@.insert(key@, value@));
        }
    }
}

} // verus!
