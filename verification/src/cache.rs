//! The cache ("memory"): maps a compiled-technique essence to a previously
//! resolved draw object or a recorded failure. A null variant never stores,
//! for techniques whose state must not be reused; a memoizing variant is
//! backed by a hash map keyed by the essence. Both live behind one interface,
//! selected when the owning phase is constructed.

use vstd::prelude::*;
use std::collections::HashMap;
use crate::device::BatchError;
use crate::queue::Object;

verus! {

broadcast use vstd::std_specs::hash::group_hash_axioms;

/// What a lookup returns and a store records: a resolved draw object, or the
/// failure that resolving it produced.
pub type CacheEntry = Result<Object, BatchError>;

/// The cache strategy: no memoization at all, or a hash map over essences.
#[derive(Debug)]
pub enum Cache {
    /// Never remembers anything: every lookup misses and stores are dropped.
    Null,
    /// Remembers every stored entry for the phase's lifetime; no eviction.
    Memo(HashMap<u64, CacheEntry>),
}

/// The model of a cache: nothing for the null variant, the stored map for
/// the memoizing variant.
pub type CacheModel = Option<Map<u64, CacheEntry>>;

/// What a lookup finds in a cache model.
pub open spec fn model_lookup(c: CacheModel, key: u64) -> Option<CacheEntry> {
    match c {
        None => None,
        Some(m) => if m.contains_key(key) {
            Some(m[key])
        } else {
            None
        },
    }
}

/// What a cache model becomes after a store: unchanged for the null variant,
/// the prior entry for the key overwritten for the memoizing one.
pub open spec fn model_store(c: CacheModel, key: u64, value: CacheEntry) -> CacheModel {
    match c {
        None => None,
        Some(m) => Some(m.insert(key, value)),
    }
}

impl Cache {
    pub open spec fn model(self) -> CacheModel {
        match self {
            Cache::Null => None,
            Cache::Memo(m) => Some(m@),
        }
    }

    /// A cache that never stores.
    pub fn new_null() -> (r: Cache)
        ensures
            r.model() is None,
    {
        Cache::Null
    }

    /// An empty memoizing cache.
    pub fn new_memo() -> (r: Cache)
        ensures
            r.model() == Some(Map::<u64, CacheEntry>::empty()),
    {
        Cache::Memo(HashMap::new())
    }

    /// Look up the entry recorded for a key, if any.
    pub fn lookup(&self, key: u64) -> (r: Option<CacheEntry>)
        ensures
            r == model_lookup(self.model(), key),
    {
        match self {
            Cache::Null => None,
            Cache::Memo(m) => match m.get(&key) {
                Some(entry) => Some(*entry),
                None => None,
            },
        }
    }

    /// Record the entry for a key, overwriting any prior entry for the same
    /// key; dropped by the null variant.
    pub fn store(&mut self, key: u64, value: CacheEntry)
        ensures
            final(self).model() == model_store(old(self).model(), key, value),
    {
        match self {
            Cache::Null => {},
            Cache::Memo(m) => {
                m.insert(key, value);
            },
        }
    }

    /// How many entries are recorded.
    pub fn len(&self) -> (n: usize)
        ensures
            n == match self.model() {
                None => 0int,
                Some(m) => m.len() as int,
            },
    {
        match self {
            Cache::Null => 0,
            Cache::Memo(m) => m.len(),
        }
    }
}

} // verus!
