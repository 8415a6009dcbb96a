//! A counter that runs towards a target.

use super::counter::{Counter, Pausable, Reset, Status, TimeCount};
use crate::time::{clock_now, Duration};
use std::time::Instant;
use vstd::prelude::*;

verus! {

/// What comes to an end.
pub trait HasEnd {
    fn has_ended(&self) -> bool;
}

/// What goes on beyond its end, and can be read there as a `T`.
pub trait Extended<T> {
    fn extended_at(&self) -> T;
}

/// A reading on either side of the end.
#[derive(Debug, Clone, Copy, PartialEq, Eq)]
pub enum CountType<T> {
    /// What is left before the end.
    Count(T),
    /// How far the end lies behind.
    Exceed(T),
}

/// What can be read on either side of its end.
pub trait CheckedCount<T> {
    fn checked_counter_at(&self) -> CountType<T>;
}

/// A pausable timer.
#[derive(Debug, Clone, Copy)]
pub struct Timer {
    pub counter: TimeCount,
    pub target: Duration,
}

impl Timer {
    /// Whether the timer is at or beyond its target when the counter's
    /// current interval has lasted `live`.
    pub open spec fn ended(self, live: Duration) -> bool {
        self.counter.reading(live).nanos >= self.target.nanos
    }

    /// What the timer shows at that reading: what is left before the
    /// target, or how far it lies behind.
    pub open spec fn checked(self, live: Duration) -> CountType<Duration> {
        if self.ended(live) {
            CountType::Exceed(self.counter.reading(live).minus(self.target))
        } else {
            CountType::Count(self.target.minus(self.counter.reading(live)))
        }
    }

    /// A timer that runs towards `target` from `now`.
    pub fn new_at(target: Duration, now: Instant) -> (timer: Self)
        ensures
            timer == (Timer {
                counter: TimeCount {
                    started: now,
                    elapsed: Duration { nanos: 0 },
                    status: Status::Running,
                },
                target,
            }),
    {
        Self { counter: TimeCount::new_at(Duration::zero(), now), target }
    }

    /// A timer that runs towards `target` from now.
    pub fn new(target: Duration) -> (timer: Self)
        ensures
            timer.target == target,
            timer.counter.elapsed.nanos == 0,
            timer.counter.status == Status::Running,
    {
        Self { counter: TimeCount::default(), target }
    }

    /// Whether the timer is at or beyond its target when the counter's
    /// current interval has lasted `live`.
    pub fn has_ended_after(&self, live: Duration) -> (ended: bool)
        ensures
            ended == self.ended(live),
    {
        self.counter.counter_after(live).nanos >= self.target.nanos
    }

    /// What is left before the target when the counter's current interval
    /// has lasted `live`; nothing from the target on.
    pub fn counter_after(&self, live: Duration) -> (left: Duration)
        ensures
            left == self.target.minus(self.counter.reading(live)),
    {
        self.target.saturating_sub(self.counter.counter_after(live))
    }

    /// How far the target lies behind when the counter's current interval
    /// has lasted `live`; nothing before the target.
    pub fn extended_after(&self, live: Duration) -> (excess: Duration)
        ensures
            excess == self.counter.reading(live).minus(self.target),
    {
        self.counter.counter_after(live).saturating_sub(self.target)
    }

    /// What the timer shows when the counter's current interval has lasted
    /// `live`.
    pub fn checked_counter_after(&self, live: Duration) -> (reading: CountType<Duration>)
        ensures
            reading == self.checked(live),
    {
        if self.has_ended_after(live) {
            CountType::Exceed(self.extended_after(live))
        } else {
            CountType::Count(self.counter_after(live))
        }
    }
}

impl HasEnd for Timer {
    /// Whether the timer is at or beyond its target by the clock.
    fn has_ended(&self) -> (ended: bool)
        ensures
            exists|live: Duration| ended == self.ended(live),
    {
        let live = self.counter.live();
        self.has_ended_after(live)
    }
}

impl Pausable for Timer {
    open spec fn runs(&self) -> bool {
        self.counter.runs()
    }

    fn is_running(&self) -> (running: bool) {
        self.counter.is_running()
    }

    fn is_paused(&self) -> (paused: bool) {
        self.counter.is_paused()
    }

    fn pause(&mut self)
        ensures
            final(self).target == old(self).target,
            exists|live: Duration| final(self).counter == old(self).counter.paused(live),
    {
        self.counter.pause();
    }

    fn resume(&mut self)
        ensures
            final(self).target == old(self).target,
            exists|now: Instant| final(self).counter == old(self).counter.resumed(now),
    {
        self.counter.resume();
    }

    fn toggle(&mut self)
        ensures
            final(self).target == old(self).target,
            exists|now: Instant, live: Duration|
                final(self).counter == old(self).counter.toggled(now, live),
    {
        self.counter.toggle();
    }
}

impl Reset for Timer {
    /// Sets the timer back to its full time, counted from now.
    fn reset(&mut self)
        ensures
            final(self).target == old(self).target,
            final(self).counter.elapsed.nanos == 0,
            final(self).counter.status == old(self).counter.status,
    {
        self.counter.reset();
    }
}

impl Counter<Duration> for Timer {
    /// What is left before the target by the clock.
    fn counter_at(&self) -> (left: Duration)
        ensures
            exists|live: Duration| left == self.target.minus(self.counter.reading(live)),
    {
        let live = self.counter.live();
        self.counter_after(live)
    }
}

impl Extended<Duration> for Timer {
    /// How far the target lies behind by the clock.
    fn extended_at(&self) -> (excess: Duration)
        ensures
            exists|live: Duration| excess == self.counter.reading(live).minus(self.target),
    {
        let live = self.counter.live();
        self.extended_after(live)
    }
}

impl CheckedCount<Duration> for Timer {
    /// What the timer shows by the clock, from one look at it.
    fn checked_counter_at(&self) -> (reading: CountType<Duration>)
        ensures
            exists|live: Duration| reading == self.checked(live),
    {
        let live = self.counter.live();
        self.checked_counter_after(live)
    }
}

/// What is left and what is beyond are never both more than nothing, and
/// the timer shows time left exactly while it has not ended.
pub proof fn law_timer_one_sided(timer: Timer, live: Duration)
    ensures
        timer.checked(live) is Count <==> !timer.ended(live),
        timer.ended(live) ==> timer.target.minus(timer.counter.reading(live)).nanos == 0,
        !timer.ended(live) ==> timer.counter.reading(live).minus(timer.target).nanos == 0,
{
}

} // verus!
