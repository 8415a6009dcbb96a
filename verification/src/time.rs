//! Spans of time as plain nanosecond counts, and the monotonic clock.
//!
//! The counters of this crate keep the moment they were started as an
//! [`Instant`] of the standard library and everything else as a [`Duration`]
//! of this module, whose arithmetic is exact and total.

use std::time::Instant;
use vstd::prelude::*;

verus! {

/// Nanoseconds in one second.
pub const NANOS_PER_SEC: u128 = 1_000_000_000;

/// Nanoseconds in one millisecond.
pub const NANOS_PER_MILLI: u128 = 1_000_000;

/// A span of time, counted in whole nanoseconds.
///
/// Every value of the field is a valid span, so the type has no invariant
/// and all of its arithmetic is total: sums saturate at `u128::MAX`
/// nanoseconds and differences at zero.
#[derive(Clone, Copy, Debug, PartialEq, Eq, Structural, PartialOrd, Ord, Hash)]
pub struct Duration {
    pub nanos: u128,
}

/// The sum of two nanosecond counts, held at `u128::MAX`.
pub open spec fn saturating_sum(a: u128, b: u128) -> u128 {
    if a + b > u128::MAX {
        u128::MAX
    } else {
        (a + b) as u128
    }
}

/// The difference of two nanosecond counts, held at zero.
pub open spec fn saturating_diff(a: u128, b: u128) -> u128 {
    if a >= b {
        (a - b) as u128
    } else {
        0
    }
}

impl Duration {
    /// The sum of the two spans, held at the largest span.
    pub open spec fn plus(self, other: Duration) -> Duration {
        Duration { nanos: saturating_sum(self.nanos, other.nanos) }
    }

    /// The part of `self` that exceeds `other`, or the empty span.
    pub open spec fn minus(self, other: Duration) -> Duration {
        Duration { nanos: saturating_diff(self.nanos, other.nanos) }
    }

    /// The empty span.
    pub fn zero() -> (d: Duration)
        ensures
            d.nanos == 0,
    {
        Duration { nanos: 0 }
    }

    /// The span of `nanos` nanoseconds.
    pub fn from_nanos(nanos: u128) -> (d: Duration)
        ensures
            d.nanos == nanos,
    {
        Duration { nanos }
    }

    /// The span of `millis` whole milliseconds.
    pub fn from_millis(millis: u64) -> (d: Duration)
        ensures
            d.nanos == millis * NANOS_PER_MILLI,
    {
        let wide: u128 = millis as u128;
        assert(wide * NANOS_PER_MILLI <= u128::MAX) by (nonlinear_arith)
            requires
                wide <= u64::MAX,
                NANOS_PER_MILLI == 1_000_000,
        ;
        Duration { nanos: wide * NANOS_PER_MILLI }
    }

    /// The span of `secs` whole seconds.
    pub fn from_secs(secs: u64) -> (d: Duration)
        ensures
            d.nanos == secs * NANOS_PER_SEC,
    {
        let wide: u128 = secs as u128;
        assert(wide * NANOS_PER_SEC <= u128::MAX) by (nonlinear_arith)
            requires
                wide <= u64::MAX,
                NANOS_PER_SEC == 1_000_000_000,
        ;
        Duration { nanos: wide * NANOS_PER_SEC }
    }

    /// The span of `mins` whole minutes.
    pub fn from_mins(mins: u64) -> (d: Duration)
        ensures
            d.nanos == mins * 60 * NANOS_PER_SEC,
    {
        let wide: u128 = mins as u128;
        assert(wide * 60 * NANOS_PER_SEC <= u128::MAX) by (nonlinear_arith)
            requires
                wide <= u64::MAX,
                NANOS_PER_SEC == 1_000_000_000,
        ;
        Duration { nanos: wide * 60 * NANOS_PER_SEC }
    }

    /// The number of nanoseconds in the span.
    pub fn as_nanos(self) -> (n: u128)
        ensures
            n == self.nanos,
    {
        self.nanos
    }

    /// The number of whole milliseconds in the span.
    pub fn as_millis(self) -> (n: u128)
        ensures
            n == self.nanos / NANOS_PER_MILLI,
    {
        self.nanos / NANOS_PER_MILLI
    }

    /// The number of whole seconds in the span.
    pub fn as_secs(self) -> (n: u128)
        ensures
            n == self.nanos / NANOS_PER_SEC,
    {
        self.nanos / NANOS_PER_SEC
    }

    /// Whether the span is empty.
    pub fn is_zero(self) -> (b: bool)
        ensures
            b == (self.nanos == 0),
    {
        self.nanos == 0
    }

    /// Adds two spans; a sum beyond the largest span is the largest span.
    pub fn saturating_add(self, other: Duration) -> (d: Duration)
        ensures
            d == self.plus(other),
    {
        if self.nanos > u128::MAX - other.nanos {
            Duration { nanos: u128::MAX }
        } else {
            Duration { nanos: self.nanos + other.nanos }
        }
    }

    /// Takes `other` away from `self`; where `other` is the longer one the
    /// result is the empty span.
    pub fn saturating_sub(self, other: Duration) -> (d: Duration)
        ensures
            d == self.minus(other),
    {
        if self.nanos >= other.nanos {
            Duration { nanos: self.nanos - other.nanos }
        } else {
            Duration { nanos: 0 }
        }
    }

    /// Takes `other` away from `self`, or gives `None` where `other` is the
    /// longer one.
    pub fn checked_sub(self, other: Duration) -> (d: Option<Duration>)
        ensures
            d == if self.nanos >= other.nanos {
                Some(self.minus(other))
            } else {
                None
            },
    {
        if self.nanos >= other.nanos {
            Some(Duration { nanos: self.nanos - other.nanos })
        } else {
            None
        }
    }
}

/// A monotonic instant of the standard library. Nothing is known of what
/// it holds: it is kept and handed back to the clock.
#[verifier::external_type_specification]
#[verifier::external_body]
pub struct ExInstant(std::time::Instant);

/// Reads the monotonic clock through `Instant::now`. The instant that comes
/// back differs from call to call, so nothing is promised of it.
#[verifier::external_body]
pub(crate) fn clock_now() -> (now: Instant) {
    Instant::now()
}

/// Measures the time that has passed since `start` through
/// `Instant::elapsed`, and hands it over in nanoseconds as
/// `Duration::as_nanos` of the standard library counts them. The reading
/// grows with the clock, so nothing is promised of it.
#[verifier::external_body]
pub(crate) fn time_since(start: &Instant) -> (live: Duration) {
    Duration { nanos: start.elapsed().as_nanos() }
}

} // verus!
