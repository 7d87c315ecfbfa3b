//! The lock of std that guards a store shared between callers.
//!
//! std lets a thread that asks for a lock which it already holds block
//! for ever or panic. No function of this crate asks for the lock while it
//! holds a guard.

use std::sync::{PoisonError, RwLock, RwLockReadGuard, RwLockWriteGuard};
use vstd::prelude::*;
use crate::cache::expiry::CacheView;
use crate::cache::store::CacheStore;

verus! {

/// `std::sync::RwLock`, a lock for many readers or one writer.
#[verifier::external_type_specification]
#[verifier::external_body]
#[verifier::reject_recursive_types(T)]
pub struct StdRwLock<T: ?Sized>(RwLock<T>);

/// `std::sync::RwLockReadGuard`: shared access, given up when the guard is
/// dropped.
#[verifier::external_type_specification]
#[verifier::external_body]
#[verifier::reject_recursive_types(T)]
pub struct StdReadGuard<'a, T: ?Sized>(RwLockReadGuard<'a, T>);

/// `std::sync::RwLockWriteGuard`: exclusive access, given up when the guard
/// is dropped.
#[verifier::external_type_specification]
#[verifier::external_body]
#[verifier::reject_recursive_types(T)]
pub struct StdWriteGuard<'a, T: ?Sized + 'a>(RwLockWriteGuard<'a, T>);

/// `std::sync::PoisonError`, which a lock returns once a holder of it has
/// panicked.
#[verifier::external_type_specification]
#[verifier::external_body]
#[verifier::reject_recursive_types(T)]
pub struct StdPoisonError<T>(PoisonError<T>);

/// What the store held with which the lock was made. What the lock holds
/// later is for its holders to change, and has no name.
pub uninterp spec fn made_with(lock: RwLock<CacheStore>) -> CacheView;

/// Calls `RwLock::new`: an unlocked lock that guards `value`.
#[verifier::external_body]
pub(crate) fn guard_with_lock(value: CacheStore) -> (lock: RwLock<CacheStore>)
    ensures
        made_with(lock) == value@,
{
    RwLock::new(value)
}

/// Calls `RwLock::read`: waits for shared access. The error is the one
/// that std returns for a poisoned lock.
#[verifier::external_body]
pub(crate) fn acquire_read<'a, T>(lock: &'a RwLock<T>) -> (access: Result<
    RwLockReadGuard<'a, T>,
    PoisonError<RwLockReadGuard<'a, T>>,
>) {
    lock.read()
}

/// Calls `RwLock::write`: waits for exclusive access. The error is the one
/// that std returns for a poisoned lock.
#[verifier::external_body]
pub(crate) fn acquire_write<'a, T>(lock: &'a RwLock<T>) -> (access: Result<
    RwLockWriteGuard<'a, T>,
    PoisonError<RwLockWriteGuard<'a, T>>,
>) {
    lock.write()
}

/// Dereferences a read guard: the value that the lock guards.
#[verifier::external_body]
pub(crate) fn guarded<'a, 'b, T>(guard: &'a RwLockReadGuard<'b, T>) -> (value: &'a T) {
    &**guard
}

/// Dereferences a write guard mutably: the value that the lock guards.
#[verifier::external_body]
pub(crate) fn guarded_mut<'a, 'b, T>(guard: &'a mut RwLockWriteGuard<'b, T>) -> (value: &'a mut T) {
    &mut **guard
}

} // verus!
