//! Cache stores for memoised results: a value envelope that carries its time of
//! writing, a key codec, a disk store and a networked store behind one contract.

use vstd::prelude::*;

pub mod envelope;
pub mod key;
pub mod macro_args;
pub mod stores;
pub mod trusted;

pub use stores::disk::{DiskCache, DiskCacheBuildError, DiskCacheBuilder, DiskCacheError};
pub use stores::redis::{
    AsyncRedisCache, AsyncRedisCacheBuilder, RedisCache, RedisCacheBuildError, RedisCacheBuilder,
    RedisCacheError,
};

verus! {

/// Cache operations on a store that is reached by I/O. What a read, a write or
/// a removal returns is up to the store; each store states it for itself.
pub trait IOKash<K, V> {
    type Error;

    /// The time-to-live, in seconds, that the store goes by; nothing for a
    /// store that keeps none.
    open spec fn lifetime(&self) -> Option<u64> {
        None
    }

    /// Attempts to retrieve a cached value.
    fn get(&mut self, k: &K) -> Result<Option<V>, Self::Error>;

    /// Inserts a key and a value, and returns the previous value.
    fn set(&mut self, k: K, v: V) -> Result<Option<V>, Self::Error>;

    /// Removes a cached value and returns it.
    fn remove(&mut self, k: &K) -> Result<Option<V>, Self::Error>;

    /// The time-to-live of cached values, in seconds. A store that keeps none
    /// answers nothing, and so does this default.
    fn ttl(&self) -> (r: Option<u64>)
        ensures
            r is None || r == self.lifetime(),
    {
        None
    }

    /// Sets the time-to-live of cached values and returns the old one. A
    /// store that keeps none answers nothing and stays as it is, and so does
    /// this default.
    fn set_ttl(&mut self, _seconds: u64) -> (r: Option<u64>)
        ensures
            r is None || r == old(self).lifetime(),
            final(self).lifetime() == Some(_seconds) || final(self).lifetime() == old(
                self,
            ).lifetime(),
    {
        None
    }

    /// Removes the time-to-live of cached values and returns the old one. A
    /// store that cannot keep values for ever answers nothing and stays as it
    /// is, and so does this default.
    fn unset_ttl(&mut self) -> (r: Option<u64>)
        ensures
            r is None || r == old(self).lifetime(),
            final(self).lifetime() is None || final(self).lifetime() == old(self).lifetime(),
    {
        None
    }
}

/// Wraps a function's result so that callers can see whether it came from the
/// cache.
#[derive(Clone)]
pub struct Return<T> {
    pub was_cached: bool,
    pub value: T,
}

impl<T> Return<T> {
    /// A result that did not come from the cache.
    pub fn new(value: T) -> (r: Self)
        ensures
            !r.was_cached,
            r.value == value,
    {
        Self { was_cached: false, value }
    }
}

} // verus!
