//! The wall clock, read as nanoseconds from the Unix epoch, and spans of
//! time.

use std::time::{Duration, SystemTime, SystemTimeError, UNIX_EPOCH};
use vstd::prelude::*;

verus! {

/// `std::time::SystemTime`, an instant of the wall clock; nothing is known
/// of what is inside.
#[verifier::external_type_specification]
#[verifier::external_body]
pub struct StdSystemTime(SystemTime);

/// `std::time::SystemTimeError`, which std returns where one instant is
/// asked to lie before another and does not.
#[verifier::external_type_specification]
#[verifier::external_body]
pub struct StdSystemTimeError(SystemTimeError);

/// The whole nanoseconds that a span holds.
pub uninterp spec fn nanos_in(span: Duration) -> nat;

/// Calls `SystemTime::now`. Nothing is claimed of the instant that comes
/// back: two readings need not be in order.
#[verifier::external_body]
fn system_time_now() -> (instant: SystemTime) {
    SystemTime::now()
}

/// Calls `SystemTime::duration_since` with `UNIX_EPOCH`: the time from the
/// epoch to `instant`, or the error that std returns for an instant before
/// the epoch.
#[verifier::external_body]
fn since_unix_epoch(instant: &SystemTime) -> (elapsed: Result<Duration, SystemTimeError>) {
    instant.duration_since(UNIX_EPOCH)
}

/// Calls `SystemTimeError::duration`: how far the instant that was asked
/// about lies before the other.
#[verifier::external_body]
fn span_before(error: &SystemTimeError) -> (span: Duration) {
    error.duration()
}

/// Calls `Duration::from_secs`: a span of so many whole seconds.
#[verifier::external_body]
pub(crate) fn duration_from_secs(secs: u64) -> (span: Duration)
    ensures
        nanos_in(span) == secs * 1_000_000_000,
{
    Duration::from_secs(secs)
}

/// Calls `Duration::as_nanos`: the whole nanoseconds that the span holds.
#[verifier::external_body]
pub(crate) fn duration_nanos(span: &Duration) -> (nanos: u128)
    ensures
        nanos == nanos_in(*span),
{
    span.as_nanos()
}

/// A distance from the epoch as a signed number, the largest one where
/// the distance is beyond it.
fn distance(nanos: u128) -> (signed: i128)
    ensures
        signed == if nanos <= i128::MAX {
            nanos as int
        } else {
            i128::MAX as int
        },
{
    if nanos > i128::MAX as u128 {
        i128::MAX
    } else {
        nanos as i128
    }
}

/// The current instant in nanoseconds from the Unix epoch: positive after
/// it, negative where the clock is set before it.
pub(crate) fn unix_nanos() -> i128 {
    let instant = system_time_now();
    match since_unix_epoch(&instant) {
        Ok(elapsed) => distance(duration_nanos(&elapsed)),
        Err(early) => -distance(duration_nanos(&span_before(&early))),
    }
}

} // verus!
