//! Wall-clock readings for the per-transaction timing a receipt reports.

use vstd::prelude::*;

verus! {

#[verifier::external_type_specification]
#[verifier::external_body]
pub struct ExInstant(std::time::Instant);

/// Relies on `std::time::Instant::now`: an opaque reading of the monotonic
/// clock. Nothing is promised of the reading.
#[verifier::external_body]
pub fn instant_now() -> std::time::Instant {
    std::time::Instant::now()
}

/// Relies on `std::time::Instant::elapsed`, its result converted to whole
/// milliseconds. Nothing is promised of the reading.
#[verifier::external_body]
pub fn elapsed_raw_millis(start: &std::time::Instant) -> u128 {
    start.elapsed().as_millis()
}

} // verus!
