//! The monotonic clock that paces animations.
//!
//! Whatever is animated keeps one reading of the clock, taken when it was
//! made, and counts its times in milliseconds since that reading. The items
//! of `std::time` that the library calls are declared here without proof. No
//! promise is made about any reading of the clock, so every caller is
//! verified for all times.

use std::time::Duration;
use std::time::Instant;
use vstd::prelude::*;

verus! {

/// `std::time::Instant`, one reading of the monotonic clock. The library
/// stores readings and asks how long ago they were taken; it never looks
/// inside one.
#[verifier::external_type_specification]
#[verifier::external_body]
pub struct ExInstant(Instant);

/// `Instant::now` reads the clock. Nothing is claimed of the reading.
pub assume_specification[ Instant::now ]() -> (now: Instant);

/// `Instant::elapsed` gives the time that has passed since the reading was
/// taken. Nothing is claimed of its length.
pub assume_specification[ Instant::elapsed ](since: &Instant) -> (passed: Duration);

/// `Duration::as_millis` gives the whole milliseconds in a span of time.
/// Nothing is claimed of the number.
pub assume_specification[ Duration::as_millis ](span: &Duration) -> (millis: u128);

/// Milliseconds that have passed since `since` was read. Whatever the clock
/// says, the callers are verified for it.
pub(crate) fn millis_since(since: &Instant) -> u128 {
    since.elapsed().as_millis()
}

/// The time from `since` to `now`, both in milliseconds on one clock. A
/// `now` that lies before `since` counts as no time at all.
pub open spec fn spec_time_between(now: u128, since: u128) -> int {
    if now >= since {
        now - since
    } else {
        0
    }
}

/// The time from `since` to `now`, both in milliseconds on one clock.
pub fn time_between(now: u128, since: u128) -> (span: u128)
    ensures
        span == spec_time_between(now, since),
{
    if now >= since {
        now - since
    } else {
        0
    }
}

} // verus!
