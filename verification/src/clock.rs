//! Monotonic clock readings for the throttle.
//!
//! The verified code never assumes anything about the values the clock hands
//! back: every caller stays correct for an arbitrary reading.

use vstd::prelude::*;

verus! {

#[verifier::external_type_specification]
#[verifier::external_body]
pub struct ExInstant(std::time::Instant);

/// Relies on std::time::Instant::now for an opaque reading of the monotonic
/// clock, used as the origin that later readings are measured against.
#[verifier::external_body]
pub(crate) fn instant_now() -> std::time::Instant {
    std::time::Instant::now()
}

/// Relies on std::time::Instant::elapsed: whole milliseconds since `start`,
/// as the clock reports them. Nothing is promised of the value.
#[verifier::external_body]
pub(crate) fn millis_since(start: &std::time::Instant) -> u64 {
    start.elapsed().as_millis() as u64
}

} // verus!
