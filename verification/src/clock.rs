//! The monotonic clock that times an attempt.

use std::time::{Duration, Instant};
use vstd::prelude::*;

verus! {

/// `std::time::Instant`, a reading of the monotonic clock. Nothing is known of
/// what a value holds.
#[verifier::external_type_specification]
#[verifier::external_body]
pub struct ExInstant(Instant);

/// `Instant::now` reads the clock. The reading depends on the moment of the
/// call, so nothing is claimed of it.
pub assume_specification[ Instant::now ]() -> (now: Instant)
;

/// `Instant::elapsed` gives the time that has passed since the reading was
/// taken. It depends on the moment of the call, so nothing is claimed of it.
pub assume_specification[ Instant::elapsed ](since: &Instant) -> (passed: Duration)
;

/// `Duration::as_nanos` gives the whole span in nanoseconds. Durations are
/// opaque here, so nothing is claimed of the number.
pub assume_specification[ Duration::as_nanos ](span: &Duration) -> (nanos: u128)
;

} // verus!
