//! The expiring cache: its mathematical model, the owned store that
//! implements the model, and the handle that shares one store between
//! callers.

pub(crate) mod clock;
pub mod expiry;
pub mod memory;
pub(crate) mod shared;
pub mod store;

use std::time::Duration;
use vstd::prelude::*;
use crate::error::PokeCliError;

pub use memory::MemoryCache;

verus! {

/// What a cache offers, whatever stands behind it. Payloads are text: a
/// caller turns its values into text before a write and back after a read,
/// so one cache holds values of unrelated shapes under different keys.
pub trait Cache: Send + Sync {
    /// The payload under `key` if there is one and it has not expired,
    /// and nothing otherwise. A key that is absent or expired is no
    /// failure.
    fn get(&self, key: &str) -> Result<Option<String>, PokeCliError>;

    /// Stores `payload` under `key` for the span `ttl` from now, in place
    /// of whatever was there.
    fn set(&self, key: &str, payload: String, ttl: Duration) -> Result<(), PokeCliError>;

    /// Removes every entry.
    fn clear(&self) -> Result<(), PokeCliError>;
}

} // verus!
