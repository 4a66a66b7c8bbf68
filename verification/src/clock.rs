//! Monotonic time, read as microseconds since a fixed origin.
//!
//! The platform clock is opaque: nothing is assumed about the values it
//! returns, and every function that consumes a reading is verified for
//! all possible readings.

use vstd::prelude::*;

verus! {

/// Microseconds in one second, the length of a statistics sample window.
pub const MICROS_PER_SECOND: u64 = 1_000_000;

#[verifier::external_type_specification]
#[verifier::external_body]
pub struct ExInstant(web_time::Instant);

/// Relies on web_time::Instant::now for an opaque reading of the
/// monotonic clock. No property of the reading is assumed.
#[verifier::external_body]
fn instant_now() -> (r: web_time::Instant) {
    web_time::Instant::now()
}

/// Relies on web_time::Instant::duration_since: the span from `earlier`
/// to `later`, zero when `later` is the earlier of the two; the result is
/// converted to whole microseconds. No property of the span is assumed.
#[verifier::external_body]
fn micros_between(earlier: &web_time::Instant, later: &web_time::Instant) -> (r: u64) {
    later.duration_since(*earlier).as_micros() as u64
}

/// Microseconds from reading `a` to reading `b`, zero when `b` precedes `a`.
pub open spec fn span_micros(a: u64, b: u64) -> u64 {
    if b >= a {
        (b - a) as u64
    } else {
        0
    }
}

/// A monotonic clock whose readings are microseconds since its origin.
pub struct Clock {
    origin: web_time::Instant,
}

impl Clock {
    /// A clock whose origin is the moment of this call.
    pub fn new() -> (c: Clock) {
        Clock { origin: instant_now() }
    }

    /// The current reading: microseconds elapsed since the origin.
    /// The value is opaque to callers; logic that consumes it holds for
    /// every possible reading.
    pub fn now_micros(&self) -> (r: u64) {
        let n = instant_now();
        micros_between(&self.origin, &n)
    }
}

} // verus!
