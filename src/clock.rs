//! The monotonic clock. Nothing can be promised of what it reads, so the
//! functions here state nothing of their results: the logic that uses a
//! reading takes it as an argument.

use std::time::{Duration, Instant};
use vstd::prelude::*;

verus! {

#[verifier::external_type_specification]
#[verifier::external_body]
pub struct ExInstant(Instant);

/// Relies on `Instant::now`: the current moment of the monotonic clock.
#[verifier::external_body]
pub(crate) fn now() -> (r: Instant) {
    Instant::now()
}

/// Relies on `Instant::elapsed`: the time that has passed since `start`.
#[verifier::external_body]
pub(crate) fn elapsed_since(start: &Instant) -> (r: Duration) {
    start.elapsed()
}

/// Relies on `Instant::duration_since` and `Duration::as_nanos`: the
/// nanoseconds from `earlier` to `later`.
#[verifier::external_body]
pub(crate) fn nanos_between(later: &Instant, earlier: &Instant) -> (r: u128) {
    later.duration_since(*earlier).as_nanos()
}

} // verus!
