//! The key-value store interface the shortening core is written against.
//!
//! The store is modelled as a map from keys to typed entries together with a
//! map of the time-to-live values that `expire` has set. Implementations may
//! fail any operation with [`StoreError::Unavailable`]; a store whose
//! [`KeyValueStore::reliable`] predicate holds never does, and then every
//! answer is fully determined by the model.

use vstd::prelude::*;

use crate::errors::StoreError;

verus! {

/// An executable store entry: a stored URL, a rate counter, or an API-key
/// validity flag.
#[derive(Debug)]
pub enum StoreValue {
    Text(String),
    Counter(i64),
    Flag(bool),
}

/// The mathematical image of a [`StoreValue`].
pub enum Entry {
    Text(Seq<char>),
    Counter(i64),
    Flag(bool),
}

impl View for StoreValue {
    type V = Entry;

    open spec fn view(&self) -> Entry {
        match self {
            StoreValue::Text(s) => Entry::Text(s@),
            StoreValue::Counter(n) => Entry::Counter(*n),
            StoreValue::Flag(b) => Entry::Flag(*b),
        }
    }
}

/// The abstract state of a key-value store: its entries, and the
/// time-to-live (in seconds) most recently set on each key by `expire`.
pub struct StoreModel {
    pub data: Map<Seq<char>, Entry>,
    pub ttls: Map<Seq<char>, u64>,
}

/// The store interface the shortening core needs: typed reads, an existence
/// test, an atomic counter increment, a time-to-live, and a plain write.
///
/// Every operation may fail with [`StoreError::Unavailable`]. When
/// `reliable(self)` holds, no operation fails (except `increment` on an entry
/// that is not a counter or would overflow), and `reliable` keeps holding.
pub trait KeyValueStore: Sized {
    /// The abstract contents of the store.
    spec fn model(&self) -> StoreModel;

    /// Whether this store never fails; an in-memory store is reliable, a
    /// networked one is not.
    spec fn reliable(&self) -> bool;

    /// Reads the string stored at `key`; absent or non-string entries read
    /// as `None`.
    fn get_string(&mut self, key: &str) -> (r: Result<Option<String>, StoreError>)
        ensures
            final(self).model() == old(self).model(),
            final(self).reliable() == old(self).reliable(),
            r matches Ok(Some(v)) ==> old(self).model().data.contains_key(key@)
                && old(self).model().data[key@] == Entry::Text(v@),
            r matches Ok(None) ==> !(old(self).model().data.contains_key(key@)
                && old(self).model().data[key@] is Text),
            old(self).reliable() ==> r is Ok,
    ;

    /// Reads the boolean flag stored at `key`; absent or non-flag entries
    /// read as `None`.
    fn get_bool(&mut self, key: &str) -> (r: Result<Option<bool>, StoreError>)
        ensures
            final(self).model() == old(self).model(),
            final(self).reliable() == old(self).reliable(),
            r matches Ok(Some(b)) ==> old(self).model().data.contains_key(key@)
                && old(self).model().data[key@] == Entry::Flag(b),
            r matches Ok(None) ==> !(old(self).model().data.contains_key(key@)
                && old(self).model().data[key@] is Flag),
            old(self).reliable() ==> r is Ok,
    ;

    /// Tests whether any entry is stored at `key`.
    fn has_key(&mut self, key: &str) -> (r: Result<bool, StoreError>)
        ensures
            final(self).model() == old(self).model(),
            final(self).reliable() == old(self).reliable(),
            r matches Ok(b) ==> b == old(self).model().data.contains_key(key@),
            old(self).reliable() ==> r is Ok,
    ;

    /// Increments the counter at `key`, creating it at 1 if absent, and
    /// returns the post-increment value.
    fn increment(&mut self, key: &str) -> (r: Result<i64, StoreError>)
        ensures
            final(self).reliable() == old(self).reliable(),
            r matches Ok(n) ==> {
                &&& old(self).model().data.contains_key(key@)
                    ==> (old(self).model().data[key@] matches Entry::Counter(c) && n == c + 1)
                &&& !old(self).model().data.contains_key(key@) ==> n == 1
                &&& final(self).model().data
                    == old(self).model().data.insert(key@, Entry::Counter(n))
                &&& final(self).model().ttls == old(self).model().ttls
            },
            r is Err ==> final(self).model() == old(self).model(),
            old(self).reliable() && counter_slot_free(old(self).model(), key@) ==> r is Ok,
    ;

    /// Sets the time-to-live of `key` to `seconds`; on a key with no entry
    /// this is a no-op.
    fn expire(&mut self, key: &str, seconds: u64) -> (r: Result<(), StoreError>)
        ensures
            final(self).reliable() == old(self).reliable(),
            r is Ok ==> {
                &&& final(self).model().data == old(self).model().data
                &&& if old(self).model().data.contains_key(key@) {
                    final(self).model().ttls == old(self).model().ttls.insert(key@, seconds)
                } else {
                    final(self).model().ttls == old(self).model().ttls
                }
            },
            r is Err ==> final(self).model() == old(self).model(),
            old(self).reliable() ==> r is Ok,
    ;

    /// Stores `value` at `key`, overwriting whatever entry was there.
    fn set(&mut self, key: &str, value: &str) -> (r: Result<(), StoreError>)
        ensures
            final(self).reliable() == old(self).reliable(),
            r is Ok ==> final(self).model().data
                == old(self).model().data.insert(key@, Entry::Text(value@))
                && final(self).model().ttls == old(self).model().ttls,
            r is Err ==> final(self).model() == old(self).model(),
            old(self).reliable() ==> r is Ok,
    ;
}

/// Whether incrementing `key` in a model `m` can be expected to succeed: the
/// key holds no entry, or holds a counter that is not yet at the maximum.
pub open spec fn counter_slot_free(m: StoreModel, key: Seq<char>) -> bool {
    m.data.contains_key(key) ==> (m.data[key] matches Entry::Counter(c) && c < i64::MAX)
}

} // verus!
