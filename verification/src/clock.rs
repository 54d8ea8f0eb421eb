//! Wall-clock timing of the proving step.
//!
//! Timestamps come from the system's monotonic clock, so nothing is
//! promised about the durations themselves; the one fact the sampler
//! relies on is the documented bound on a duration's nanosecond count.

use vstd::prelude::*;

verus! {

/// An opaque reading of the monotonic clock.
#[verifier::external_type_specification]
#[verifier::external_body]
pub struct ExInstant(std::time::Instant);

/// The largest value `Duration::as_nanos` can return: a duration holds
/// at most `u64::MAX` whole seconds plus a sub-second nanosecond part.
pub const MAX_DURATION_NANOS: u128 = 18_446_744_073_709_551_615u128 * 1_000_000_000 + 999_999_999;

/// Relies on `std::time::Instant::now`: an opaque reading of the
/// monotonic clock; nothing can be promised of its value.
pub assume_specification[ std::time::Instant::now ]() -> std::time::Instant;

/// Relies on `std::time::Instant::elapsed`: the wall-clock time since
/// `start`; the clock decides it, so nothing is promised of its value.
pub assume_specification[ std::time::Instant::elapsed ](start: &std::time::Instant)
    -> core::time::Duration;

/// Relies on `core::time::Duration::as_nanos`: the total number of whole
/// nanoseconds of the duration. A duration counts its seconds in a
/// `u64`, so the total is at most `MAX_DURATION_NANOS`.
pub assume_specification[ core::time::Duration::as_nanos ](d: &core::time::Duration) -> (n: u128)
    ensures
        n <= MAX_DURATION_NANOS,
;

} // verus!
