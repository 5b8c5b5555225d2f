//! What is taken on trust of `moka`: nothing but that its cache can be called.
//! The cache evicts by its own policy and clock, so no call promises anything.

use moka::sync::Cache;
use std::hash::Hash;
use std::time::Duration;
use vstd::prelude::*;

verus! {

/// `moka::sync::Cache`, a concurrent cache in memory. Nothing is read of it.
#[verifier::external_type_specification]
#[verifier::external_body]
#[verifier::reject_recursive_types(K)]
#[verifier::reject_recursive_types(V)]
#[verifier::reject_recursive_types(S)]
pub struct ExCache<K, V, S>(Cache<K, V, S>);

/// `moka::sync::Cache::get`: a clone of the value under the key, if the cache
/// still holds one.
#[verifier::external_body]
pub(crate) fn cache_get<K: Hash + Eq + Send + Sync + 'static, V: Clone + Send + Sync + 'static>(
    cache: &Cache<K, V>,
    k: &K,
) -> Option<V> {
    cache.get(k)
}

/// `moka::sync::Cache::entry` and `or_insert`: the value under the key, after
/// `v` was put there if there was none.
#[verifier::external_body]
pub(crate) fn cache_get_or_insert<K: Hash + Eq + Send + Sync + 'static, V: Clone + Send + Sync + 'static>(
    cache: &Cache<K, V>,
    k: K,
    v: V,
) -> V {
    cache.entry(k).or_insert(v).into_value()
}

/// `moka::sync::Cache::insert`.
#[verifier::external_body]
pub(crate) fn cache_insert<K: Hash + Eq + Send + Sync + 'static, V: Clone + Send + Sync + 'static>(
    cache: &Cache<K, V>,
    k: K,
    v: V,
) {
    cache.insert(k, v)
}

/// `moka::sync::Cache::remove`: discards the entry of the key and gives back its
/// value, if the cache still held one.
#[verifier::external_body]
pub(crate) fn cache_remove<K: Hash + Eq + Send + Sync + 'static, V: Clone + Send + Sync + 'static>(
    cache: &Cache<K, V>,
    k: &K,
) -> Option<V> {
    cache.remove(k)
}

/// `moka::sync::Cache::invalidate_all`.
#[verifier::external_body]
pub(crate) fn cache_invalidate_all<K: Hash + Eq + Send + Sync + 'static, V: Clone + Send + Sync + 'static>(
    cache: &Cache<K, V>,
) {
    cache.invalidate_all()
}

/// `moka::sync::Cache::entry_count`: an estimate of the number of entries.
#[verifier::external_body]
pub(crate) fn cache_entry_count<K: Hash + Eq + Send + Sync + 'static, V: Clone + Send + Sync + 'static>(
    cache: &Cache<K, V>,
) -> u64 {
    cache.entry_count()
}

/// `moka::sync::Cache::policy` and `time_to_live`: the time-to-live that the
/// cache was built with.
#[verifier::external_body]
pub(crate) fn cache_time_to_live<K: Hash + Eq + Send + Sync + 'static, V: Clone + Send + Sync + 'static>(
    cache: &Cache<K, V>,
) -> Option<Duration> {
    cache.policy().time_to_live()
}

} // verus!
