//! A clock that is toggled between running and standing, and reset.

use crate::counter::Counter;
use crate::time::{clock_now, time_since, Duration};
use std::time::Instant;
use vstd::prelude::*;

verus! {

/// A pausable counter of elapsed time with a single switch.
#[derive(Debug, Clone, Copy)]
pub struct Clock {
    /// The instant the clock was last started at; `None` while it stands.
    pub start_time: Option<Instant>,
    /// The time gathered in the intervals that have ended.
    pub accumulated: Duration,
}

impl Default for Clock {
    /// A clock that starts running now, with nothing gathered.
    fn default() -> (clock: Self)
        ensures
            clock.start_time.is_some(),
            clock.accumulated.nanos == 0,
    {
        Self { start_time: Some(clock_now()), accumulated: Duration::zero() }
    }
}

impl Clock {
    /// The clock as a counter: the two hold the same and behave the same.
    pub open spec fn counter(self) -> Counter {
        Counter { start: self.start_time, elapsed: self.accumulated }
    }

    /// The clock that holds what `counter` holds.
    pub open spec fn of(counter: Counter) -> Clock {
        Clock { start_time: counter.start, accumulated: counter.elapsed }
    }

    /// Whether the clock is running.
    pub fn is_running(&self) -> (running: bool)
        ensures
            running == self.start_time.is_some(),
    {
        self.start_time.is_some()
    }

    /// How long the current interval has lasted by the system's clock; the
    /// empty span while this clock stands.
    pub fn live(&self) -> (live: Duration)
        ensures
            self.start_time.is_none() ==> live.nanos == 0,
    {
        match self.start_time {
            Some(start_time) => time_since(&start_time),
            None => Duration::zero(),
        }
    }

    /// The elapsed time when the current interval has lasted `live`.
    pub fn elapsed_after(&self, live: Duration) -> (elapsed: Duration)
        ensures
            elapsed == self.counter().reading(live),
    {
        match self.start_time {
            Some(_) => live.saturating_add(self.accumulated),
            None => self.accumulated,
        }
    }

    /// The elapsed time by the system's clock.
    pub fn elapsed(&self) -> (elapsed: Duration)
        ensures
            exists|live: Duration| elapsed == self.counter().reading(live),
    {
        let live = self.live();
        self.elapsed_after(live)
    }

    /// Stops a running clock whose current interval has lasted `live`,
    /// starts a standing one at `now`.
    pub fn toggle_with(&mut self, now: Instant, live: Duration)
        ensures
            *final(self) == Clock::of(old(self).counter().flipped(now, live)),
    {
        match self.start_time {
            Some(_) => {
                self.accumulated = self.accumulated.saturating_add(live);
                self.start_time = None;
            },
            None => {
                self.start_time = Some(now);
            },
        }
    }

    /// Stops a running clock, starts a standing one, by the system's clock.
    pub fn toggle(&mut self)
        ensures
            exists|now: Instant, live: Duration|
                *final(self) == Clock::of(old(self).counter().flipped(now, live)),
    {
        let live = self.live();
        let now = clock_now();
        self.toggle_with(now, live);
    }

    /// Sets the clock back to nothing gathered, running from `now`.
    pub fn reset_at(&mut self, now: Instant)
        ensures
            *final(self) == (Clock { start_time: Some(now), accumulated: Duration { nanos: 0 } }),
    {
        self.start_time = Some(now);
        self.accumulated = Duration::zero();
    }

    /// Sets the clock back to nothing gathered, running from now.
    pub fn reset(&mut self)
        ensures
            final(self).start_time.is_some(),
            final(self).accumulated.nanos == 0,
    {
        let now = clock_now();
        self.reset_at(now);
    }
}

} // verus!
