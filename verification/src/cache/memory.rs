//! The cache that callers share: one store behind a lock, read and
//! written at the instant that the wall clock shows.

use std::sync::{Arc, RwLock};
use std::time::Duration;
use vstd::prelude::*;
use vstd::string::StringExecFns;
use crate::cache::Cache;
use crate::cache::clock::{duration_nanos, nanos_in, unix_nanos};
use crate::cache::expiry::{cleared, swept, written};
use crate::cache::shared::{
    acquire_read,
    acquire_write,
    guard_with_lock,
    guarded,
    guarded_mut,
    made_with,
};
use crate::cache::store::CacheStore;
use crate::error::PokeCliError;

verus! {

/// What a cache error says when shared access to the store was refused.
pub open spec fn read_lock_failure() -> Seq<char> {
    "Failed to acquire read lock"@
}

/// What a cache error says when exclusive access to the store was refused.
pub open spec fn write_lock_failure() -> Seq<char> {
    "Failed to acquire write lock"@
}

/// An expiring cache in memory. A clone is a second handle to the same
/// store, not a copy of it; the store goes when the last handle goes.
#[derive(Clone)]
pub struct MemoryCache {
    store: Arc<RwLock<CacheStore>>,
}

impl MemoryCache {
    /// The cache was made around a store with nothing in it.
    pub closed spec fn made_empty(&self) -> bool {
        made_with(*self.store) == cleared()
    }

    /// A cache with nothing in it.
    pub fn new() -> (cache: Self)
        ensures
            cache.made_empty(),
    {
        MemoryCache { store: Arc::new(guard_with_lock(CacheStore::new())) }
    }

    /// The write that [`Cache::set`] makes once it holds the store, at the
    /// instant `now`: the store is swept, and `payload` is written under
    /// `key` to live for the nanoseconds that `ttl` holds.
    pub fn write_at(store: &mut CacheStore, key: &str, payload: String, now: i128, ttl: &Duration)
        ensures
            final(store)@ == written(
                swept(old(store)@, now as int),
                key@,
                payload@,
                now as int,
                nanos_in(*ttl),
            ),
    {
        store.sweep_and_set(key, payload, now, duration_nanos(ttl));
    }

    /// Removes the entries that have expired by now. Where exclusive
    /// access is refused the sweep is left out.
    pub fn cleanup_expired(&self) {
        match acquire_write(&self.store) {
            Ok(mut guard) => {
                let now = unix_nanos();
                guarded_mut(&mut guard).cleanup_expired(now);
            },
            Err(_) => {},
        }
    }
}

impl Cache for MemoryCache {
    /// Sweeps the store, then reads `key` at the instant that the clock
    /// shows once shared access is had. The one failure is a poisoned
    /// lock at the read; one at the sweep only leaves the sweep out.
    fn get(&self, key: &str) -> (found: Result<Option<String>, PokeCliError>)
        ensures
            found matches Err(error) ==> error.is_cache_failure(read_lock_failure()),
    {
        self.cleanup_expired();
        match acquire_read(&self.store) {
            Ok(guard) => {
                let now = unix_nanos();
                Ok(guarded(&guard).get(key, now))
            },
            Err(_) => Err(PokeCliError::Cache(String::from_str("Failed to acquire read lock"))),
        }
    }

    /// Reads the clock, then sweeps the store and writes `payload` under
    /// `key`, to expire `ttl` after the reading. The one failure is a
    /// poisoned lock, and then nothing is written.
    fn set(&self, key: &str, payload: String, ttl: Duration) -> (done: Result<(), PokeCliError>)
        ensures
            done matches Err(error) ==> error.is_cache_failure(write_lock_failure()),
    {
        let now = unix_nanos();
        match acquire_write(&self.store) {
            Ok(mut guard) => {
                Self::write_at(guarded_mut(&mut guard), key, payload, now, &ttl);
                Ok(())
            },
            Err(_) => Err(PokeCliError::Cache(String::from_str("Failed to acquire write lock"))),
        }
    }

    /// Removes every entry. The one failure is a poisoned lock, and then
    /// nothing is removed.
    fn clear(&self) -> (done: Result<(), PokeCliError>)
        ensures
            done matches Err(error) ==> error.is_cache_failure(write_lock_failure()),
    {
        match acquire_write(&self.store) {
            Ok(mut guard) => {
                guarded_mut(&mut guard).clear();
                Ok(())
            },
            Err(_) => Err(PokeCliError::Cache(String::from_str("Failed to acquire write lock"))),
        }
    }
}

impl Default for MemoryCache {
    /// A cache with nothing in it.
    fn default() -> (cache: Self)
        ensures
            cache.made_empty(),
    {
        Self::new()
    }
}

} // verus!
