//! The traits of a counter, and the counter of elapsed time that has them.

use crate::time::{clock_now, time_since, Duration};
use std::time::Instant;
use vstd::prelude::*;

verus! {

/// What can be paused and resumed. It is either running or paused, never
/// both.
pub trait Pausable {
    /// Whether it runs.
    spec fn runs(&self) -> bool;

    /// Whether it is paused.
    fn is_paused(&self) -> (paused: bool)
        ensures
            paused == !self.runs(),
    ;

    /// Whether it runs.
    fn is_running(&self) -> (running: bool)
        ensures
            running == self.runs(),
    ;

    /// Pauses it; if it is paused, nothing changes.
    fn pause(&mut self)
        ensures
            !final(self).runs(),
    ;

    /// Lets it run; if it runs, nothing changes.
    fn resume(&mut self)
        ensures
            final(self).runs(),
    ;

    /// Pauses it if it runs, lets it run if it is paused.
    fn toggle(&mut self)
        ensures
            final(self).runs() == !old(self).runs(),
    ;
}

/// What can be set back to its start.
pub trait Reset {
    fn reset(&mut self);
}

/// What can be read as a `T`.
pub trait Counter<T> {
    fn counter_at(&self) -> T;
}

/// Whether a counter runs or is paused.
#[derive(Debug, Clone, Copy, PartialEq, Eq, Structural)]
pub enum Status {
    Running,
    Paused,
}

impl Default for Status {
    fn default() -> (status: Self)
        ensures
            status == Status::Running,
    {
        Self::Running
    }
}

/// A pausable counter of elapsed time.
#[derive(Debug, Clone, Copy)]
pub struct TimeCount {
    /// The instant the counter was last started at.
    pub started: Instant,
    /// The time gathered in the intervals that have ended.
    pub elapsed: Duration,
    pub status: Status,
}

impl Default for TimeCount {
    /// A counter that starts running now, with nothing gathered.
    fn default() -> (count: Self)
        ensures
            count.elapsed.nanos == 0,
            count.status == Status::Running,
    {
        Self { started: clock_now(), elapsed: Duration::zero(), status: Status::Running }
    }
}

impl TimeCount {
    /// What the counter shows when its current interval has lasted `live`.
    pub open spec fn reading(self, live: Duration) -> Duration {
        match self.status {
            Status::Running => self.elapsed.plus(live),
            Status::Paused => self.elapsed,
        }
    }

    /// The counter after a pause at which its current interval had lasted
    /// `live`.
    pub open spec fn paused(self, live: Duration) -> TimeCount {
        TimeCount { started: self.started, elapsed: self.reading(live), status: Status::Paused }
    }

    /// The counter after it is resumed at `now`.
    pub open spec fn resumed(self, now: Instant) -> TimeCount {
        match self.status {
            Status::Running => self,
            Status::Paused => TimeCount {
                started: now,
                elapsed: self.elapsed,
                status: Status::Running,
            },
        }
    }

    /// The counter after a toggle.
    pub open spec fn toggled(self, now: Instant, live: Duration) -> TimeCount {
        match self.status {
            Status::Running => self.paused(live),
            Status::Paused => self.resumed(now),
        }
    }

    /// A counter that has gathered `start` and runs from `now`.
    pub fn new_at(start: Duration, now: Instant) -> (count: Self)
        ensures
            count == (TimeCount { started: now, elapsed: start, status: Status::Running }),
    {
        Self { started: now, elapsed: start, status: Status::Running }
    }

    /// A counter that has gathered `start` and runs from now.
    pub fn new(start: Duration) -> (count: Self)
        ensures
            count.elapsed == start,
            count.status == Status::Running,
    {
        Self::new_at(start, clock_now())
    }

    /// How long the current interval has lasted by the clock; the empty
    /// span for a paused counter.
    pub fn live(&self) -> (live: Duration)
        ensures
            self.status == Status::Paused ==> live.nanos == 0,
    {
        match self.status {
            Status::Running => time_since(&self.started),
            Status::Paused => Duration::zero(),
        }
    }

    /// Pauses the counter and adds `live` to what it has gathered, whether
    /// it ran or not. For a running counter whose current interval has
    /// lasted `live` this is a pause.
    pub fn unchecked_pause(&mut self, live: Duration)
        ensures
            *final(self) == (TimeCount {
                started: old(self).started,
                elapsed: old(self).elapsed.plus(live),
                status: Status::Paused,
            }),
            old(self).status == Status::Running ==> *final(self) == old(self).paused(live),
    {
        self.status = Status::Paused;
        self.elapsed = self.elapsed.saturating_add(live);
    }

    /// Lets the counter run from `now`, whether it ran or not. For a paused
    /// counter this is a resume.
    pub fn unchecked_resume(&mut self, now: Instant)
        ensures
            *final(self) == (TimeCount {
                started: now,
                elapsed: old(self).elapsed,
                status: Status::Running,
            }),
            old(self).status == Status::Paused ==> *final(self) == old(self).resumed(now),
    {
        self.status = Status::Running;
        self.started = now;
    }

    /// What the counter shows when its current interval has lasted `live`.
    pub fn counter_after(&self, live: Duration) -> (elapsed: Duration)
        ensures
            elapsed == self.reading(live),
    {
        match self.status {
            Status::Running => self.elapsed.saturating_add(live),
            Status::Paused => self.elapsed,
        }
    }

    /// Pauses the counter when its current interval has lasted `live`.
    pub fn pause_after(&mut self, live: Duration)
        ensures
            *final(self) == old(self).paused(live),
    {
        match self.status {
            Status::Running => self.unchecked_pause(live),
            Status::Paused => {},
        }
    }

    /// Resumes the counter at `now`.
    pub fn resume_at(&mut self, now: Instant)
        ensures
            *final(self) == old(self).resumed(now),
    {
        match self.status {
            Status::Paused => self.unchecked_resume(now),
            Status::Running => {},
        }
    }

    /// Pauses a running counter whose current interval has lasted `live`,
    /// resumes a paused one at `now`.
    pub fn toggle_with(&mut self, now: Instant, live: Duration)
        ensures
            *final(self) == old(self).toggled(now, live),
    {
        match self.status {
            Status::Running => self.unchecked_pause(live),
            Status::Paused => self.unchecked_resume(now),
        }
    }

    /// Sets the counter back to nothing gathered, counted from `now`.
    /// Whether it runs stays as it is.
    pub fn reset_at(&mut self, now: Instant)
        ensures
            *final(self) == (TimeCount {
                started: now,
                elapsed: Duration { nanos: 0 },
                status: old(self).status,
            }),
    {
        self.elapsed = Duration::from_secs(0);
        self.started = now;
    }
}

impl Reset for TimeCount {
    /// Sets the counter back to nothing gathered, counted from now.
    fn reset(&mut self)
        ensures
            final(self).elapsed.nanos == 0,
            final(self).status == old(self).status,
    {
        let now = clock_now();
        self.reset_at(now);
    }
}

impl Counter<Duration> for TimeCount {
    /// What the counter shows by the clock.
    fn counter_at(&self) -> (elapsed: Duration)
        ensures
            exists|live: Duration| elapsed == self.reading(live),
    {
        let live = self.live();
        self.counter_after(live)
    }
}

impl Pausable for TimeCount {
    open spec fn runs(&self) -> bool {
        self.status == Status::Running
    }

    fn is_running(&self) -> (running: bool) {
        match self.status {
            Status::Running => true,
            Status::Paused => false,
        }
    }

    fn is_paused(&self) -> (paused: bool) {
        match self.status {
            Status::Running => false,
            Status::Paused => true,
        }
    }

    fn pause(&mut self)
        ensures
            exists|live: Duration| *final(self) == old(self).paused(live),
    {
        let live = self.live();
        self.pause_after(live);
    }

    fn resume(&mut self)
        ensures
            exists|now: Instant| *final(self) == old(self).resumed(now),
    {
        let now = clock_now();
        self.resume_at(now);
    }

    fn toggle(&mut self)
        ensures
            exists|now: Instant, live: Duration| *final(self) == old(self).toggled(now, live),
    {
        let live = self.live();
        let now = clock_now();
        self.toggle_with(now, live);
    }
}

/// A pause keeps what the counter showed, and a resume adds nothing by
/// itself: right after both the counter shows what it showed at the pause.
pub proof fn law_pause_resume_keeps_time(count: TimeCount, live: Duration, now: Instant)
    ensures
        count.paused(live).resumed(now).reading(Duration { nanos: 0 }) == count.reading(live),
        count.paused(live).paused(live) == count.paused(live),
        count.resumed(now).resumed(now) == count.resumed(now),
{
}

} // verus!
