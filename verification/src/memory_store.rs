//! An in-memory key-value store.
//!
//! The store keeps its entries as a journal: writes append a slot, and a read
//! finds the newest slot for its key. It implements [`KeyValueStore`] exactly
//! and never fails, so it serves wherever a reliable store is wanted — above
//! all as the backing store of tests.

use vstd::prelude::*;

use crate::errors::StoreError;
use crate::store::Entry;
use crate::store::KeyValueStore;
use crate::store::StoreModel;
use crate::store::StoreValue;

verus! {

/// One journal record: a key and the value written for it.
struct Slot {
    key: String,
    value: StoreValue,
}

/// The map a journal denotes: each slot overrides the older ones for its key.
spec fn slots_map(s: Seq<Slot>) -> Map<Seq<char>, Entry>
    decreases s.len(),
{
    if s.len() == 0 {
        Map::empty()
    } else {
        slots_map(s.drop_last()).insert(s.last().key@, s.last().value@)
    }
}

/// A slot whose key nothing newer overrides gives the key's entry.
proof fn lemma_slots_map_latest(s: Seq<Slot>, i: int, k: Seq<char>)
    requires
        0 <= i < s.len(),
        s[i].key@ == k,
        forall|j: int| i < j < s.len() ==> s[j].key@ != k,
    ensures
        slots_map(s).contains_key(k),
        slots_map(s)[k] == s[i].value@,
    decreases s.len(),
{
    if i == s.len() - 1 {
    } else {
        let prefix = s.drop_last();
        lemma_slots_map_latest(prefix, i, k);
    }
}

/// A key no slot holds is absent from the denoted map.
proof fn lemma_slots_map_absent(s: Seq<Slot>, k: Seq<char>)
    requires
        forall|j: int| 0 <= j < s.len() ==> s[j].key@ != k,
    ensures
        !slots_map(s).contains_key(k),
    decreases s.len(),
{
    if s.len() > 0 {
        lemma_slots_map_absent(s.drop_last(), k);
    }
}

/// Appending a slot inserts its key into the denoted map.
proof fn lemma_slots_map_push(s: Seq<Slot>, slot: Slot)
    ensures
        slots_map(s.push(slot)) == slots_map(s).insert(slot.key@, slot.value@),
{
    assert(s.push(slot).drop_last() =~= s);
}

/// An in-memory, never-failing [`KeyValueStore`].
pub struct MemoryStore {
    entries: Vec<Slot>,
    ttls: Ghost<Map<Seq<char>, u64>>,
}

impl MemoryStore {
    /// An empty store.
    pub fn new() -> (s: MemoryStore)
        ensures
            s.model().data == Map::<Seq<char>, Entry>::empty(),
            s.model().ttls == Map::<Seq<char>, u64>::empty(),
            s.reliable(),
    {
        MemoryStore { entries: Vec::new(), ttls: Ghost(Map::empty()) }
    }

    /// Writes a boolean flag at `key`, as an operator provisioning an
    /// API-key record would.
    pub fn set_flag(&mut self, key: &str, value: bool)
        ensures
            final(self).model().data == old(self).model().data.insert(key@, Entry::Flag(value)),
            final(self).model().ttls == old(self).model().ttls,
            final(self).reliable() == old(self).reliable(),
    {
        let slot = Slot { key: key.to_owned(), value: StoreValue::Flag(value) };
        proof {
            lemma_slots_map_push(self.entries@, slot);
        }
        self.entries.push(slot);
    }

    /// The index of the newest slot for `key`, if any slot holds it.
    fn find_latest(&self, key: &String) -> (r: Option<usize>)
        ensures
            r matches Some(i) ==> i < self.entries@.len() && self.entries@[i as int].key@ == key@
                && (forall|j: int| i < j < self.entries@.len() ==> self.entries@[j].key@ != key@),
            r is None ==> forall|j: int| 0 <= j < self.entries@.len() ==> self.entries@[j].key@ != key@,
    {
        let mut i: usize = self.entries.len();
        while i > 0
            invariant
                i <= self.entries@.len(),
                forall|j: int| i <= j < self.entries@.len() ==> self.entries@[j].key@ != key@,
            decreases i,
        {
            i = i - 1;
            if self.entries[i].key == *key {
                return Some(i);
            }
        }
        None
    }
}

impl KeyValueStore for MemoryStore {
    closed spec fn model(&self) -> StoreModel {
        StoreModel { data: slots_map(self.entries@), ttls: self.ttls@ }
    }

    open spec fn reliable(&self) -> bool {
        true
    }

    fn get_string(&mut self, key: &str) -> (r: Result<Option<String>, StoreError>) {
        let k = key.to_owned();
        match self.find_latest(&k) {
            Some(i) => {
                proof {
                    lemma_slots_map_latest(self.entries@, i as int, k@);
                }
                match &self.entries[i].value {
                    StoreValue::Text(s) => Ok(Some(s.clone())),
                    _ => Ok(None),
                }
            },
            None => {
                proof {
                    lemma_slots_map_absent(self.entries@, k@);
                }
                Ok(None)
            },
        }
    }

    fn get_bool(&mut self, key: &str) -> (r: Result<Option<bool>, StoreError>) {
        let k = key.to_owned();
        match self.find_latest(&k) {
            Some(i) => {
                proof {
                    lemma_slots_map_latest(self.entries@, i as int, k@);
                }
                match &self.entries[i].value {
                    StoreValue::Flag(b) => Ok(Some(*b)),
                    _ => Ok(None),
                }
            },
            None => {
                proof {
                    lemma_slots_map_absent(self.entries@, k@);
                }
                Ok(None)
            },
        }
    }

    fn has_key(&mut self, key: &str) -> (r: Result<bool, StoreError>) {
        let k = key.to_owned();
        match self.find_latest(&k) {
            Some(i) => {
                proof {
                    lemma_slots_map_latest(self.entries@, i as int, k@);
                }
                Ok(true)
            },
            None => {
                proof {
                    lemma_slots_map_absent(self.entries@, k@);
                }
                Ok(false)
            },
        }
    }

    fn increment(&mut self, key: &str) -> (r: Result<i64, StoreError>) {
        let k = key.to_owned();
        let n: i64 = match self.find_latest(&k) {
            Some(i) => {
                proof {
                    lemma_slots_map_latest(self.entries@, i as int, k@);
                }
                match &self.entries[i].value {
                    StoreValue::Counter(c) => {
                        if *c == i64::MAX {
                            return Err(StoreError::Unavailable);
                        }
                        *c + 1
                    },
                    _ => {
                        return Err(StoreError::Unavailable);
                    },
                }
            },
            None => {
                proof {
                    lemma_slots_map_absent(self.entries@, k@);
                }
                1
            },
        };
        let slot = Slot { key: k, value: StoreValue::Counter(n) };
        proof {
            lemma_slots_map_push(self.entries@, slot);
        }
        self.entries.push(slot);
        Ok(n)
    }

    fn expire(&mut self, key: &str, seconds: u64) -> (r: Result<(), StoreError>) {
        let k = key.to_owned();
        match self.find_latest(&k) {
            Some(i) => {
                proof {
                    lemma_slots_map_latest(self.entries@, i as int, k@);
                }
                self.ttls = Ghost(self.ttls@.insert(k@, seconds));
            },
            None => {
                proof {
                    lemma_slots_map_absent(self.entries@, k@);
                }
            },
        }
        Ok(())
    }

    fn set(&mut self, key: &str, value: &str) -> (r: Result<(), StoreError>) {
        let slot = Slot { key: key.to_owned(), value: StoreValue::Text(value.to_owned()) };
        proof {
            lemma_slots_map_push(self.entries@, slot);
        }
        self.entries.push(slot);
        Ok(())
    }
}

} // verus!
