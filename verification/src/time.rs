//! Time as the state machines see it: plain numbers that the caller supplies.
//!
//! Nothing in this library reads a clock. A [`Duration`] is a number of
//! nanoseconds, an [`Instant`] a point on a monotonic clock, given as the
//! nanoseconds since some fixed point of that clock.

use vstd::prelude::*;

verus! {

pub const NANOS_PER_SEC: u128 = 1_000_000_000;

pub const NANOS_PER_MILLI: u128 = 1_000_000;

/// The longest span a duration can name: `u64::MAX` whole seconds and the
/// largest fraction below one more.
pub const MAX_DURATION_NANOS: u128 = 18_446_744_073_709_551_615_999_999_999;

/// A span of time.
#[derive(Clone, Copy, Debug, PartialEq, Eq, Structural)]
pub struct Duration {
    pub nanos: u128,
}

/// A point on a monotonic clock.
#[derive(Clone, Copy, Debug, PartialEq, Eq, Structural)]
pub struct Instant {
    pub nanos: u128,
}

/// The smaller of two numbers.
pub open spec fn min_of(a: int, b: int) -> int {
    if a <= b {
        a
    } else {
        b
    }
}

/// How long `later` is after `earlier`, or zero where it is before it.
pub open spec fn nanos_between(later: Instant, earlier: Instant) -> int {
    if later.nanos >= earlier.nanos {
        later.nanos - earlier.nanos
    } else {
        0
    }
}

impl Duration {
    pub fn from_secs(secs: u64) -> (r: Self)
        ensures
            r.nanos == secs * NANOS_PER_SEC,
    {
        Duration { nanos: secs as u128 * NANOS_PER_SEC }
    }

    pub fn from_millis(millis: u64) -> (r: Self)
        ensures
            r.nanos == millis * NANOS_PER_MILLI,
    {
        Duration { nanos: millis as u128 * NANOS_PER_MILLI }
    }

    /// The whole seconds of the span.
    pub fn as_secs(&self) -> (r: u64)
        requires
            self.nanos <= MAX_DURATION_NANOS,
        ensures
            r == self.nanos / NANOS_PER_SEC,
    {
        (self.nanos / NANOS_PER_SEC) as u64
    }

    /// The whole milliseconds of the span.
    pub fn as_millis(&self) -> (r: u128)
        ensures
            r == self.nanos / NANOS_PER_MILLI,
    {
        self.nanos / NANOS_PER_MILLI
    }

    pub fn is_zero(&self) -> (r: bool)
        ensures
            r == (self.nanos == 0),
    {
        self.nanos == 0
    }

    /// The sum of two spans, or the longest span where the sum exceeds it.
    pub fn saturating_add(self, other: Duration) -> (r: Self)
        ensures
            r.nanos == min_of(self.nanos + other.nanos, MAX_DURATION_NANOS as int),
    {
        if self.nanos <= MAX_DURATION_NANOS && other.nanos <= MAX_DURATION_NANOS - self.nanos {
            Duration { nanos: self.nanos + other.nanos }
        } else {
            Duration { nanos: MAX_DURATION_NANOS }
        }
    }
}

impl Instant {
    /// How long this point is after `earlier`; zero where it is before it.
    pub fn duration_since(&self, earlier: Instant) -> (r: Duration)
        ensures
            r.nanos == nanos_between(*self, earlier),
    {
        if self.nanos >= earlier.nanos {
            Duration { nanos: self.nanos - earlier.nanos }
        } else {
            Duration { nanos: 0 }
        }
    }
}

/// A moment that lies a span behind another is that span later, and no moment
/// is later than one behind it. A second has a thousand milliseconds, and a
/// millisecond a million nanoseconds.
pub proof fn the_time_between_two_moments(earlier: Instant, span: u128)
    requires
        earlier.nanos + span <= u128::MAX,
    ensures
        nanos_between(Instant { nanos: (earlier.nanos + span) as u128 }, earlier) == span,
        nanos_between(earlier, Instant { nanos: (earlier.nanos + span) as u128 }) == 0,
        NANOS_PER_SEC == 1000 * NANOS_PER_MILLI,
        NANOS_PER_MILLI == 1_000_000,
{
}

} // verus!
