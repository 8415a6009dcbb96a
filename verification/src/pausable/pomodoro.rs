//! The pomodoro as a timer that is set anew for each phase.

use super::counter::{Counter, Pausable, Reset, Status, TimeCount};
use super::timer::{CheckedCount, CountType, HasEnd, Timer};
use crate::time::{clock_now, Duration};
use std::time::Instant;
use vstd::prelude::*;

verus! {

/// One phase of the cycle.
#[derive(Copy, Clone, Debug, PartialEq, Eq, Structural)]
pub enum Mode {
    Work,
    Rest,
    LongRest,
}

/// How long each phase lasts.
#[derive(Debug, Clone, Copy, PartialEq, Eq, Structural)]
pub struct PomoSettings {
    pub work: Duration,
    pub rest: Duration,
    pub long_rest: Duration,
}

impl Default for PomoSettings {
    /// 25 minutes of work, rests of 5 and 10 minutes.
    fn default() -> (settings: Self)
        ensures
            settings == (PomoSettings {
                work: crate::pomodoro::pomoconfig::minutes(25),
                rest: crate::pomodoro::pomoconfig::minutes(5),
                long_rest: crate::pomodoro::pomoconfig::minutes(10),
            }),
    {
        Self {
            work: Duration::from_secs(25 * 60),
            rest: Duration::from_secs(5 * 60),
            long_rest: Duration::from_secs(10 * 60),
        }
    }
}

impl PomoSettings {
    /// How long `mode` lasts.
    pub open spec fn target(self, mode: Mode) -> Duration {
        match mode {
            Mode::Work => self.work,
            Mode::Rest => self.rest,
            Mode::LongRest => self.long_rest,
        }
    }

    pub fn new(work: Duration, rest: Duration, long_rest: Duration) -> (settings: Self)
        ensures
            settings == (PomoSettings { work, rest, long_rest }),
    {
        Self { work, rest, long_rest }
    }
}

/// Whether the work of `session` is followed by a long rest: that of every
/// fourth session is.
pub open spec fn is_leap_session(session: u64) -> bool {
    session % 4 == 0 && session != 0
}

/// Whether the work of `session` is followed by a long rest.
pub fn leap_session(session: u64) -> (leap: bool)
    ensures
        leap == is_leap_session(session),
{
    session % 4 == 0 && session != 0
}

/// The number of the session after `session`; the count stops at the
/// largest number that it can hold.
pub open spec fn session_after(session: u64) -> u64 {
    if session < u64::MAX {
        (session + 1) as u64
    } else {
        session
    }
}

/// A pomodoro: the timer of the current phase, and where the cycle stands.
#[derive(Debug, Clone, Copy)]
pub struct Pomodoro {
    pub counter: Timer,
    /// The number of the current session, which starts at 1 and moves on
    /// where a rest ends.
    pub session: u64,
    pub mode: Mode,
    pub options: PomoSettings,
}

/// What goes through the phases of a pomodoro.
pub trait PomoMode {
    fn mode(&self) -> &Mode;

    fn session(&self) -> u64;

    fn check_next_mode(&self) -> Mode;

    fn next_mode(&mut self);
}

impl Pomodoro {
    /// The phase that follows the current one: after work a rest, a long
    /// one in a leap session, and after a rest work.
    pub open spec fn following(self) -> Mode {
        match self.mode {
            Mode::Work => if is_leap_session(self.session) {
                Mode::LongRest
            } else {
                Mode::Rest
            },
            _ => Mode::Work,
        }
    }

    /// The pomodoro at the start of the next phase, begun at `now`: a
    /// fresh timer runs towards the target of that phase, and the session
    /// moves on where a rest ends.
    pub open spec fn advanced(self, now: Instant) -> Pomodoro {
        Pomodoro {
            counter: Timer {
                counter: TimeCount {
                    started: now,
                    elapsed: Duration { nanos: 0 },
                    status: Status::Running,
                },
                target: self.options.target(self.following()),
            },
            session: if self.mode is Work {
                self.session
            } else {
                session_after(self.session)
            },
            mode: self.following(),
            options: self.options,
        }
    }

    /// A pomodoro that begins with work at `now`.
    pub fn new_at(work: Duration, rest: Duration, long_rest: Duration, now: Instant) -> (pomo: Self)
        ensures
            pomo == (Pomodoro {
                counter: Timer {
                    counter: TimeCount {
                        started: now,
                        elapsed: Duration { nanos: 0 },
                        status: Status::Running,
                    },
                    target: work,
                },
                session: 1,
                mode: Mode::Work,
                options: PomoSettings { work, rest, long_rest },
            }),
    {
        let options = PomoSettings::new(work, rest, long_rest);
        Self { counter: Timer::new_at(options.work, now), session: 1, mode: Mode::Work, options }
    }

    /// A pomodoro that begins with work now.
    pub fn new(work: Duration, rest: Duration, long_rest: Duration) -> (pomo: Self)
        ensures
            pomo.options == (PomoSettings { work, rest, long_rest }),
            pomo.session == 1,
            pomo.mode == Mode::Work,
            pomo.counter.target == work,
            pomo.counter.counter.elapsed.nanos == 0,
            pomo.counter.counter.status == Status::Running,
    {
        Self::new_at(work, rest, long_rest, clock_now())
    }

    /// Moves on to the next phase, begun at `now`.
    pub fn next_mode_at(&mut self, now: Instant)
        ensures
            *final(self) == old(self).advanced(now),
    {
        let target_time = match self.mode {
            Mode::Work => if leap_session(self.session) {
                self.mode = Mode::LongRest;
                self.options.long_rest
            } else {
                self.mode = Mode::Rest;
                self.options.rest
            },
            Mode::Rest | Mode::LongRest => {
                if self.session < u64::MAX {
                    self.session += 1;
                }
                self.mode = Mode::Work;
                self.options.work
            },
        };
        self.counter = Timer::new_at(target_time, now);
    }
}

impl CheckedCount<Duration> for Pomodoro {
    /// What the timer of the current phase shows by the clock.
    fn checked_counter_at(&self) -> (reading: CountType<Duration>)
        ensures
            exists|live: Duration| reading == self.counter.checked(live),
    {
        self.counter.checked_counter_at()
    }
}

impl Pausable for Pomodoro {
    open spec fn runs(&self) -> bool {
        self.counter.runs()
    }

    fn is_running(&self) -> (running: bool) {
        self.counter.is_running()
    }

    fn is_paused(&self) -> (paused: bool) {
        self.counter.is_paused()
    }

    fn pause(&mut self)
        ensures
            final(self).session == old(self).session,
            final(self).mode == old(self).mode,
            final(self).options == old(self).options,
            final(self).counter.target == old(self).counter.target,
            exists|live: Duration|
                final(self).counter.counter == old(self).counter.counter.paused(live),
    {
        self.counter.pause();
    }

    fn resume(&mut self)
        ensures
            final(self).session == old(self).session,
            final(self).mode == old(self).mode,
            final(self).options == old(self).options,
            final(self).counter.target == old(self).counter.target,
            exists|now: Instant|
                final(self).counter.counter == old(self).counter.counter.resumed(now),
    {
        self.counter.resume();
    }

    fn toggle(&mut self)
        ensures
            final(self).session == old(self).session,
            final(self).mode == old(self).mode,
            final(self).options == old(self).options,
            final(self).counter.target == old(self).counter.target,
            exists|now: Instant, live: Duration|
                final(self).counter.counter == old(self).counter.counter.toggled(now, live),
    {
        self.counter.toggle();
    }
}

impl Reset for Pomodoro {
    /// Sets the timer of the current phase back to its full time.
    fn reset(&mut self)
        ensures
            final(self).session == old(self).session,
            final(self).mode == old(self).mode,
            final(self).options == old(self).options,
            final(self).counter.target == old(self).counter.target,
            final(self).counter.counter.elapsed.nanos == 0,
            final(self).counter.counter.status == old(self).counter.counter.status,
    {
        self.counter.reset();
    }
}

impl Counter<Duration> for Pomodoro {
    /// What is left of the current phase by the clock.
    fn counter_at(&self) -> (left: Duration)
        ensures
            exists|live: Duration|
                left == self.counter.target.minus(self.counter.counter.reading(live)),
    {
        self.counter.counter_at()
    }
}

impl HasEnd for Pomodoro {
    /// Whether the current phase is over by the clock.
    fn has_ended(&self) -> (ended: bool)
        ensures
            exists|live: Duration| ended == self.counter.ended(live),
    {
        self.counter.has_ended()
    }
}

impl PomoMode for Pomodoro {
    fn mode(&self) -> (mode: &Mode)
        ensures
            *mode == self.mode,
    {
        &self.mode
    }

    fn session(&self) -> (session: u64)
        ensures
            session == self.session,
    {
        self.session
    }

    fn check_next_mode(&self) -> (mode: Mode)
        ensures
            mode == self.following(),
    {
        match self.mode {
            Mode::Work => if leap_session(self.session()) {
                Mode::LongRest
            } else {
                Mode::Rest
            },
            Mode::Rest | Mode::LongRest => Mode::Work,
        }
    }

    fn next_mode(&mut self)
        ensures
            exists|now: Instant| *final(self) == old(self).advanced(now),
    {
        let now = clock_now();
        self.next_mode_at(now);
    }
}

/// The pomodoro `steps` phases after `pomo`, each begun at `now`.
pub open spec fn later(pomo: Pomodoro, steps: nat, now: Instant) -> Pomodoro
    decreases steps,
{
    if steps == 0 {
        pomo
    } else {
        later(pomo, (steps - 1) as nat, now).advanced(now)
    }
}

/// A pomodoro begins with work in session 1, and from there runs work,
/// rest, work, rest, work, rest, work, long rest, work: the fourth rest is the
/// long one, and each work phase after a rest opens the next session.
pub proof fn law_pomodoro_cycle(pomo: Pomodoro, now: Instant)
    requires
        pomo.mode is Work,
        pomo.session == 1,
    ensures
        later(pomo, 1, now).mode is Rest && later(pomo, 1, now).session == 1,
        later(pomo, 2, now).mode is Work && later(pomo, 2, now).session == 2,
        later(pomo, 3, now).mode is Rest && later(pomo, 3, now).session == 2,
        later(pomo, 4, now).mode is Work && later(pomo, 4, now).session == 3,
        later(pomo, 5, now).mode is Rest && later(pomo, 5, now).session == 3,
        later(pomo, 6, now).mode is Work && later(pomo, 6, now).session == 4,
        later(pomo, 7, now).mode is LongRest && later(pomo, 7, now).session == 4,
        later(pomo, 8, now).mode is Work && later(pomo, 8, now).session == 5,
{
    reveal_with_fuel(later, 9);
}

/// The session number moves on only where a rest ends, and work is never
/// followed by work nor a rest by a rest.
pub proof fn law_sessions_count_rests(pomo: Pomodoro, now: Instant)
    ensures
        pomo.mode is Work ==> pomo.advanced(now).session == pomo.session && !(pomo.advanced(
            now,
        ).mode is Work),
        !(pomo.mode is Work) ==> pomo.advanced(now).mode is Work,
        !(pomo.mode is Work) && pomo.session < u64::MAX ==> pomo.advanced(now).session
            == pomo.session + 1,
        pomo.advanced(now).counter.target == pomo.options.target(pomo.advanced(now).mode),
        pomo.advanced(now).counter.counter.reading(Duration { nanos: 0 }).nanos == 0,
{
}

} // verus!
