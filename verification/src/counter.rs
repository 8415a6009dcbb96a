//! The pausable elapsed-time counter.
//!
//! A counter is the time it has gathered while it ran before, and, while it
//! runs, the instant at which it was last started. Every operation that
//! looks at the clock is written twice: once as an exact function of the
//! clock reading, and once as the method that takes the reading itself.

use crate::time::{clock_now, time_since, Duration};
use std::time::Instant;
use vstd::prelude::*;

verus! {

/// A pausable counter of elapsed time.
#[derive(Clone, Copy, Debug)]
pub struct Counter {
    /// The instant the counter was last started at; `None` while it is
    /// stopped.
    pub start: Option<Instant>,
    /// The time gathered in the intervals that have ended.
    pub elapsed: Duration,
}

/// A span of time on either side of a target: still to go, or gone beyond.
#[derive(Debug, Clone, Copy, PartialEq, Eq, Structural)]
pub enum DoubleEndedDuration {
    /// The target lies ahead by this much.
    Positive(Duration),
    /// The target was reached and passed by this much.
    Negative(Duration),
}

/// Where `elapsed` stands against `target`: what remains while the target
/// lies ahead, the excess once it is reached.
pub open spec fn time_relation(elapsed: Duration, target: Duration) -> DoubleEndedDuration {
    if elapsed.nanos < target.nanos {
        DoubleEndedDuration::Positive(target.minus(elapsed))
    } else {
        DoubleEndedDuration::Negative(elapsed.minus(target))
    }
}

/// Computes where `elapsed` stands against `target`.
pub fn relate(elapsed: Duration, target: Duration) -> (r: DoubleEndedDuration)
    ensures
        r == time_relation(elapsed, target),
{
    if elapsed.nanos < target.nanos {
        DoubleEndedDuration::Positive(target.saturating_sub(elapsed))
    } else {
        DoubleEndedDuration::Negative(elapsed.saturating_sub(target))
    }
}

impl Default for Counter {
    /// A counter that starts running now, with nothing gathered.
    fn default() -> (c: Self)
        ensures
            c.start.is_some(),
            c.elapsed.nanos == 0,
    {
        Counter { start: Some(clock_now()), elapsed: Duration::zero() }
    }
}

impl From<Duration> for Counter {
    /// A stopped counter that has gathered `elapsed`.
    fn from(elapsed: Duration) -> (c: Self) {
        Counter { start: None, elapsed }
    }
}

impl vstd::std_specs::convert::FromSpecImpl<Duration> for Counter {
    open spec fn obeys_from_spec() -> bool {
        true
    }

    open spec fn from_spec(elapsed: Duration) -> Counter {
        Counter { start: None, elapsed }
    }
}

impl From<Counter> for Duration {
    /// The elapsed time of the counter by the clock.
    fn from(counter: Counter) -> (elapsed: Self)
        ensures
            exists|live: Duration| elapsed == counter.reading(live),
    {
        counter.elapsed()
    }
}

/// A running counter is read by the clock, so its elapsed time is no
/// function of the counter alone.
impl vstd::std_specs::convert::FromSpecImpl<Counter> for Duration {
    open spec fn obeys_from_spec() -> bool {
        false
    }

    open spec fn from_spec(counter: Counter) -> Duration {
        counter.elapsed
    }
}

impl Counter {
    /// Whether the counter is running.
    pub open spec fn running(self) -> bool {
        self.start.is_some()
    }

    /// What the counter shows when its current interval has lasted `live`.
    /// A stopped counter has no current interval and shows what it has
    /// gathered.
    pub open spec fn reading(self, live: Duration) -> Duration {
        if self.start.is_some() {
            self.elapsed.plus(live)
        } else {
            self.elapsed
        }
    }

    /// The counter after a start at `now`.
    pub open spec fn resumed(self, now: Instant) -> Counter {
        if self.start.is_some() {
            self
        } else {
            Counter { start: Some(now), elapsed: self.elapsed }
        }
    }

    /// The counter after a stop at which its current interval had lasted
    /// `live`.
    pub open spec fn halted(self, live: Duration) -> Counter {
        Counter { start: None, elapsed: self.reading(live) }
    }

    /// The counter after a toggle: stopped if it ran, started if it did not.
    pub open spec fn flipped(self, now: Instant, live: Duration) -> Counter {
        if self.start.is_some() {
            self.halted(live)
        } else {
            self.resumed(now)
        }
    }

    /// A counter from its two parts.
    pub fn new(start: Option<Instant>, elapsed: Duration) -> (c: Self)
        ensures
            c.start == start,
            c.elapsed == elapsed,
    {
        Counter { start, elapsed }
    }

    /// Whether the counter is running.
    pub fn started(&self) -> (b: bool)
        ensures
            b == self.running(),
    {
        self.start.is_some()
    }

    /// Whether the counter is stopped.
    pub fn stopped(&self) -> (b: bool)
        ensures
            b == !self.running(),
    {
        self.start.is_none()
    }

    /// How long the current interval has lasted by the clock; the empty
    /// span for a stopped counter.
    pub fn live(&self) -> (live: Duration)
        ensures
            !self.running() ==> live.nanos == 0,
    {
        match self.start {
            Some(start) => time_since(&start),
            None => Duration::zero(),
        }
    }

    /// The elapsed time when the current interval has lasted `live`.
    pub fn elapsed_after(self, live: Duration) -> (d: Duration)
        ensures
            d == self.reading(live),
    {
        match self.start {
            Some(_) => self.elapsed.saturating_add(live),
            None => self.elapsed,
        }
    }

    /// The elapsed time by the clock. Reading it changes nothing.
    pub fn elapsed(self) -> (d: Duration)
        ensures
            exists|live: Duration| d == self.reading(live),
    {
        let live = self.live();
        self.elapsed_after(live)
    }

    /// What is left of `initial` when the current interval has lasted
    /// `live`; the empty span once `initial` is used up.
    pub fn saturating_time_left_after(&self, initial: Duration, live: Duration) -> (d: Duration)
        ensures
            d == initial.minus(self.reading(live)),
    {
        initial.saturating_sub(self.elapsed_after(live))
    }

    /// What is left of `initial` by the clock.
    pub fn saturating_time_left(&self, initial: Duration) -> (d: Duration)
        ensures
            exists|live: Duration| d == initial.minus(self.reading(live)),
    {
        let live = self.live();
        self.saturating_time_left_after(initial, live)
    }

    /// Where the counter stands against `initial` when the current interval
    /// has lasted `live`.
    pub fn checked_time_left_after(&self, initial: Duration, live: Duration) -> (r:
        DoubleEndedDuration)
        ensures
            r == time_relation(self.reading(live), initial),
    {
        relate(self.elapsed_after(live), initial)
    }

    /// Where the counter stands against `initial` by the clock.
    pub fn checked_time_left(&self, initial: Duration) -> (r: DoubleEndedDuration)
        ensures
            exists|live: Duration| r == time_relation(self.reading(live), initial),
    {
        let live = self.live();
        self.checked_time_left_after(initial, live)
    }

    /// Starts a stopped counter at `now`; a running counter stays as it is.
    pub fn start_at(self, now: Instant) -> (c: Self)
        ensures
            c == self.resumed(now),
    {
        match self.start {
            Some(_) => self,
            None => Counter { start: Some(now), elapsed: self.elapsed },
        }
    }

    /// Starts a stopped counter at the present instant.
    pub fn start(self) -> (c: Self)
        ensures
            exists|now: Instant| c == self.resumed(now),
    {
        let now = clock_now();
        self.start_at(now)
    }

    /// Stops the counter, folding the current interval of length `live` into
    /// what it has gathered.
    pub fn stop_after(self, live: Duration) -> (c: Self)
        ensures
            c == self.halted(live),
    {
        Counter { start: None, elapsed: self.elapsed_after(live) }
    }

    /// Stops the counter by the clock.
    pub fn stop(self) -> (c: Self)
        ensures
            exists|live: Duration| c == self.halted(live),
    {
        let live = self.live();
        self.stop_after(live)
    }

    /// Stops a running counter whose current interval has lasted `live`,
    /// starts a stopped one at `now`.
    pub fn toggle_with(self, now: Instant, live: Duration) -> (c: Self)
        ensures
            c == self.flipped(now, live),
    {
        match self.start {
            Some(_) => self.stop_after(live),
            None => self.start_at(now),
        }
    }

    /// Stops a running counter, starts a stopped one, by the clock.
    pub fn toggle(self) -> (c: Self)
        ensures
            exists|now: Instant, live: Duration| c == self.flipped(now, live),
    {
        let live = self.live();
        let now = clock_now();
        self.toggle_with(now, live)
    }
}

/// One call made on a counter, with the clock reading it was made at.
pub enum Call {
    /// `start` at this instant.
    Start(Instant),
    /// `stop` when the current interval had lasted this long.
    Stop(Duration),
}

/// The counter after the calls of `calls`, made in order.
pub open spec fn replay(c: Counter, calls: Seq<Call>) -> Counter
    decreases calls.len(),
{
    if calls.len() == 0 {
        c
    } else {
        let before = replay(c, calls.drop_last());
        match calls.last() {
            Call::Start(now) => before.resumed(now),
            Call::Stop(live) => before.halted(live),
        }
    }
}

/// The total length of the intervals that the calls of `calls` bring to an
/// end, on a counter that is running or not as `running` says.
pub open spec fn intervals_ended(running: bool, calls: Seq<Call>) -> nat
    decreases calls.len(),
{
    if calls.len() == 0 {
        0
    } else {
        let rest = calls.drop_last();
        match calls.last() {
            Call::Start(_) => intervals_ended(running, rest),
            Call::Stop(live) => if runs_after(running, rest) {
                intervals_ended(running, rest) + live.nanos as nat
            } else {
                intervals_ended(running, rest)
            },
        }
    }
}

/// Whether the counter runs after the calls of `calls`.
pub open spec fn runs_after(running: bool, calls: Seq<Call>) -> bool {
    if calls.len() == 0 {
        running
    } else {
        calls.last() is Start
    }
}

/// The nanosecond count `total`, held at the largest span.
pub open spec fn capped(total: int) -> u128 {
    if total > u128::MAX {
        u128::MAX
    } else {
        total as u128
    }
}

/// Starting twice is starting once: the second start changes nothing,
/// whatever instant it is made at, so every later reading is the same.
pub proof fn law_start_idempotent(c: Counter, first: Instant, second: Instant)
    ensures
        c.resumed(first).resumed(second) == c.resumed(first),
        forall|live: Duration|
            c.resumed(first).resumed(second).reading(live) == c.resumed(first).reading(live),
{
}

/// Stopping twice is stopping once: a stopped counter has no interval to
/// fold in.
pub proof fn law_stop_idempotent(c: Counter, first: Duration, second: Duration)
    ensures
        c.halted(first).halted(second) == c.halted(first),
{
}

/// Two toggles of a stopped counter gather exactly the interval between
/// them.
pub proof fn law_toggle_twice(c: Counter, now: Instant, live: Duration, later: Instant)
    requires
        !c.running(),
    ensures
        c.flipped(now, live).flipped(later, live) == (Counter {
            start: None,
            elapsed: c.elapsed.plus(live),
        }),
{
}

/// No time is gained or lost over any run of starts and stops: what the
/// counter has gathered afterwards is what it had before plus the lengths of
/// the intervals that were brought to an end, however many calls there were,
/// and it runs exactly if the last call was a start.
pub proof fn law_conservation(c: Counter, calls: Seq<Call>)
    ensures
        replay(c, calls).elapsed.nanos == capped(
            c.elapsed.nanos + intervals_ended(c.running(), calls),
        ),
        replay(c, calls).running() == runs_after(c.running(), calls),
    decreases calls.len(),
{
    if calls.len() > 0 {
        let rest = calls.drop_last();
        let before = replay(c, rest);
        law_conservation(c, rest);
        match calls.last() {
            Call::Start(now) => {
                assert(replay(c, calls) == before.resumed(now));
            },
            Call::Stop(live) => {
                assert(replay(c, calls) == before.halted(live));
            },
        }
    }
}

/// What a counter shows right after a run of starts and stops, when its
/// current interval has lasted `live`: the sum of the intervals it ran for.
pub proof fn law_conservation_reading(c: Counter, calls: Seq<Call>, live: Duration)
    ensures
        replay(c, calls).reading(live).nanos == capped(
            c.elapsed.nanos + intervals_ended(c.running(), calls) + if runs_after(
                c.running(),
                calls,
            ) {
                live.nanos as int
            } else {
                0
            },
        ),
{
    law_conservation(c, calls);
}

/// While nothing stops the counter, a later reading is never less than an
/// earlier one.
pub proof fn law_monotone(c: Counter, earlier: Duration, later: Duration)
    requires
        earlier.nanos <= later.nanos,
    ensures
        c.reading(earlier).nanos <= c.reading(later).nanos,
        c.elapsed.nanos <= c.reading(earlier).nanos,
{
}

/// Remaining time and excess never go below zero, and at most one of them
/// is more than zero: before the target only time remains, from the target
/// on there is only excess.
pub proof fn law_one_sided(elapsed: Duration, target: Duration)
    ensures
        elapsed.nanos < target.nanos ==> elapsed.minus(target).nanos == 0 && target.minus(
            elapsed,
        ).nanos == target.nanos - elapsed.nanos,
        elapsed.nanos >= target.nanos ==> target.minus(elapsed).nanos == 0 && elapsed.minus(
            target,
        ).nanos == elapsed.nanos - target.nanos,
        time_relation(elapsed, target) is Positive <==> elapsed.nanos < target.nanos,
{
}

} // verus!
