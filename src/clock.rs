//! The monotonic clock that buckets read their time from.

use std::time::{Duration, Instant};
use vstd::prelude::*;

verus! {

/// `std::time::Instant` is carried through opaquely: a bucket keeps the
/// instant it was created at and measures every later time from it.
#[verifier::external_type_specification]
#[verifier::external_body]
pub struct ExInstant(Instant);

/// Relies on `Instant::now`: it returns a reading of the monotonic clock.
/// Nothing is promised of its value.
pub assume_specification[ Instant::now ]() -> Instant;

/// Relies on `Instant::elapsed`: it returns the time since the given instant,
/// saturating at zero, and does not panic. Nothing is promised of its value,
/// which depends on when it is called.
pub assume_specification[ Instant::elapsed ](instant: &Instant) -> Duration;

/// Relies on `Duration::as_nanos`: it returns the whole duration in
/// nanoseconds. Nothing more is needed of it here.
pub assume_specification[ Duration::as_nanos ](duration: &Duration) -> u128;

} // verus!
