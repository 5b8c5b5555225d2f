//! A store in memory, kept in a moka cache. The cache evicts entries by its own
//! policy and clock, so a read may miss what was written a moment ago: the
//! operations here hand values through and promise nothing about them.

use crate::trusted::memory_cache::{
    cache_entry_count, cache_get, cache_get_or_insert, cache_insert, cache_invalidate_all,
    cache_remove, cache_time_to_live,
};
use moka::sync::Cache;
use std::hash::Hash;
use std::time::Duration;
use vstd::prelude::*;

verus! {

/// Memory cache: stores a limited number of values and evicts expired and
/// little-used entries. An entry's time runs from its insertion and is not
/// renewed when it is read.
#[verifier::reject_recursive_types(K)]
#[verifier::reject_recursive_types(V)]
pub struct MemoryCache<K, V> where
    K: Hash + Eq + Send + Sync + 'static,
    V: Clone + Send + Sync + 'static,
 {
    pub cache: Cache<K, V>,
}

impl<K: Hash + Eq + Send + Sync + 'static, V: Clone + Send + Sync + 'static> MemoryCache<K, V> {
    /// Wraps a cache that was built with the limits wanted.
    #[must_use]
    pub fn new(cache: Cache<K, V>) -> (r: MemoryCache<K, V>)
        ensures
            r.cache == cache,
    {
        MemoryCache { cache }
    }

    /// The cache inside.
    #[must_use]
    pub fn get_inner(&self) -> (r: &Cache<K, V>)
        ensures
            *r == self.cache,
    {
        &self.cache
    }

    /// The value under `k`, if the cache still holds one.
    pub fn get(&self, k: &K) -> Option<V> {
        cache_get(&self.cache, k)
    }

    /// The value under `k`, after `v` was put there if there was none.
    pub fn get_or_set(&self, k: K, v: V) -> V {
        cache_get_or_insert(&self.cache, k, v)
    }

    /// Puts `v` under `k` and returns the value that a read just before found.
    pub fn set(&self, k: K, v: V) -> Option<V> {
        let previous = cache_get(&self.cache, &k);
        cache_insert(&self.cache, k, v);
        previous
    }

    /// Discards the entry of `k` and returns its value, if there was one.
    pub fn remove(&self, k: &K) -> Option<V> {
        cache_remove(&self.cache, k)
    }

    /// Discards all entries.
    pub fn reset(&self) {
        cache_invalidate_all(&self.cache)
    }

    /// An estimate of the number of entries.
    pub fn size(&self) -> u64 {
        cache_entry_count(&self.cache)
    }

    /// The time-to-live that the cache was built with.
    pub fn ttl(&self) -> Option<Duration> {
        cache_time_to_live(&self.cache)
    }
}

} // verus!
