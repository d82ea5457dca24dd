//! The two clocks the protocol reads: the wall clock for message timestamps
//! and a monotonic clock for ages.

use vstd::prelude::*;

verus! {

#[verifier::external_type_specification]
#[verifier::external_body]
pub struct ExInstant(std::time::Instant);

/// `chrono::Utc::now()`, read once: its `timestamp()` in whole seconds since
/// the Unix epoch and its `to_rfc3339()` text. Nothing is promised of either.
#[verifier::external_body]
pub(crate) fn wall_clock() -> (i64, String) {
    let now = chrono::Utc::now();
    (now.timestamp(), now.to_rfc3339())
}

/// `std::time::Instant::now()`: a reading of the monotonic clock.
#[verifier::external_body]
pub(crate) fn instant_now() -> std::time::Instant {
    std::time::Instant::now()
}

/// `Instant::elapsed`, read once: the time that has passed since `start`, in
/// whole seconds and in whole nanoseconds. Nothing is promised of either.
#[verifier::external_body]
pub(crate) fn elapsed_since(start: &std::time::Instant) -> (u64, u128) {
    let elapsed = start.elapsed();
    (elapsed.as_secs(), elapsed.as_nanos())
}

/// The wall clock in whole seconds since the Unix epoch.
pub fn unix_now() -> i64 {
    wall_clock().0
}

} // verus!
