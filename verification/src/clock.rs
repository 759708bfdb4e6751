//! The wall clock, for the search's time budget.  Time is inherently
//! nondeterministic, so nothing is promised about the values read; the
//! search is verified to return a sound result whether or not the
//! budget runs out.
use vstd::prelude::*;

verus! {

#[verifier::external_type_specification]
#[verifier::external_body]
pub struct ExInstant(std::time::Instant);

/// Relies on `std::time::Instant::now`: a reading of the monotonic
/// clock; no two readings are related by anything this crate needs.
pub assume_specification[ std::time::Instant::now ]() -> std::time::Instant;

/// Relies on `std::time::Instant::elapsed`: the time passed since the
/// reading was taken.
pub assume_specification[ std::time::Instant::elapsed ](
    start: &std::time::Instant,
) -> core::time::Duration;

/// Relies on `core::time::Duration::as_millis`: the duration in whole
/// milliseconds.
pub assume_specification[ core::time::Duration::as_millis ](d: &core::time::Duration) -> u128;

/// Whether the time budget that started at `start` has run out.  The
/// clock decides; every caller is verified for both answers.
pub fn budget_elapsed(start: &std::time::Instant, budget_ms: u128) -> bool {
    let d = start.elapsed();
    d.as_millis() >= budget_ms
}

} // verus!
