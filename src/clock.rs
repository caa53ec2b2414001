//! The clock that times commands.
use std::time::{Duration, Instant};
use vstd::prelude::*;

verus! {

/// A point in time of the monotonic clock.
#[verifier::external_type_specification]
#[verifier::external_body]
pub struct ExInstant(Instant);

/// Relies on std::time::Instant::now: reads the monotonic clock. Nothing
/// is promised of the value.
pub assume_specification[ Instant::now ]() -> Instant;

/// Relies on std::time::Instant::elapsed: the time since an instant.
/// Nothing is promised of the value.
pub assume_specification[ Instant::elapsed ](start: &Instant) -> Duration;

/// Relies on std::time::Duration::as_nanos: a duration in nanoseconds.
/// Nothing is promised of the value.
pub assume_specification[ Duration::as_nanos ](d: &Duration) -> u128;

} // verus!
