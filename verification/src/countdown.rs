//! A countdown in whole seconds.

use crate::time::{clock_now, time_since, Duration, NANOS_PER_SEC};
use std::time::Instant;
use vstd::prelude::*;

verus! {

/// A pausable countdown. While it runs, `counter` is what was left when it
/// was last started; while it stands, `counter` is what is left.
#[derive(Debug, Clone, Copy)]
pub struct Countdown {
    /// The instant the countdown was last started at.
    pub started: Instant,
    /// The seconds left at that instant.
    pub counter: u64,
    /// Whether the countdown is running.
    pub running: bool,
}

/// The seconds left of `counter` after `live` has passed, and none once
/// `counter` is used up.
pub open spec fn seconds_left(counter: u64, live: Duration) -> u64 {
    if counter > live.nanos / NANOS_PER_SEC {
        (counter - live.nanos / NANOS_PER_SEC) as u64
    } else {
        0
    }
}

impl Countdown {
    /// What the countdown shows when its current interval has lasted
    /// `live`.
    pub open spec fn left(self, live: Duration) -> u64 {
        if self.running {
            seconds_left(self.counter, live)
        } else {
            self.counter
        }
    }

    /// A countdown of `count` seconds that starts running at `now`.
    pub fn new_at(count: u64, now: Instant) -> (countdown: Self)
        ensures
            countdown == (Countdown { started: now, counter: count, running: true }),
    {
        Self { started: now, counter: count, running: true }
    }

    /// A countdown of `count` seconds that starts running now.
    pub fn new(count: u64) -> (countdown: Self)
        ensures
            countdown.counter == count,
            countdown.running,
    {
        Self::new_at(count, clock_now())
    }

    /// How long the current interval has lasted by the clock.
    pub fn live(&self) -> (live: Duration) {
        time_since(&self.started)
    }

    /// Whether the countdown is running.
    pub fn is_running(&self) -> (running: bool)
        ensures
            running == self.running,
    {
        self.running
    }

    /// The seconds left when the current interval has lasted `live`.
    pub fn counter_after(&self, live: Duration) -> (left: u64)
        ensures
            left == self.left(live),
    {
        if self.running {
            let elapsed = live.as_secs();
            if self.counter as u128 > elapsed {
                (self.counter as u128 - elapsed) as u64
            } else {
                0
            }
        } else {
            self.counter
        }
    }

    /// The seconds left by the clock.
    pub fn counter(&self) -> (left: u64)
        ensures
            exists|live: Duration| left == self.left(live),
    {
        let live = self.live();
        self.counter_after(live)
    }

    /// Whether nothing is left when the current interval has lasted `live`.
    pub fn check_end_after(&self, live: Duration) -> (ended: bool)
        ensures
            ended == (self.left(live) == 0),
    {
        if self.running {
            self.counter as u128 <= live.as_secs()
        } else {
            self.counter == 0
        }
    }

    /// Whether nothing is left by the clock.
    pub fn check_end(&self) -> (ended: bool)
        ensures
            exists|live: Duration| ended == (self.left(live) == 0),
    {
        let live = self.live();
        self.check_end_after(live)
    }

    /// Stops a running countdown whose current interval has lasted `live`:
    /// what is left then stays. A standing countdown stays as it is.
    pub fn pause_after(&mut self, live: Duration)
        ensures
            *final(self) == (Countdown {
                started: old(self).started,
                counter: old(self).left(live),
                running: false,
            }),
    {
        if self.running {
            self.counter = self.counter_after(live);
            self.running = false;
        }
    }

    /// Stops a running countdown by the clock.
    pub fn pause(&mut self)
        ensures
            exists|live: Duration|
                *final(self) == (Countdown {
                    started: old(self).started,
                    counter: old(self).left(live),
                    running: false,
                }),
    {
        let live = self.live();
        self.pause_after(live);
    }

    /// Starts a standing countdown at `now`; a running one stays as it is.
    pub fn resume_at(&mut self, now: Instant)
        ensures
            *final(self) == if old(self).running {
                *old(self)
            } else {
                Countdown { started: now, counter: old(self).counter, running: true }
            },
    {
        if !self.running {
            self.running = true;
            self.started = now;
        }
    }

    /// Starts a standing countdown at the present instant.
    pub fn resume(&mut self)
        ensures
            final(self).running,
            final(self).counter == old(self).counter,
            old(self).running ==> *final(self) == *old(self),
    {
        let now = clock_now();
        self.resume_at(now);
    }
}

/// A pause and a resume lose no second that was left: after both, with no
/// time passed since, the countdown shows what it showed at the pause.
pub proof fn law_countdown_pause_resume(countdown: Countdown, live: Duration, now: Instant)
    ensures
        (Countdown { started: now, counter: countdown.left(live), running: true }).left(
            Duration { nanos: 0 },
        ) == countdown.left(live),
        countdown.left(live) <= countdown.counter,
{
}

} // verus!
