//! The stopwatch: a counter that is changed in place, and the two small
//! state machines that run one from commands.

use crate::counter::Counter;
use crate::display::{running_color, tint, Frame, LineView};
use crate::format::{duration_text, format_duration};
use crate::input::Command;
use crate::time::{clock_now, time_since, Duration};
use std::time::Instant;
use vstd::prelude::*;

verus! {

/// A pausable counter of elapsed time that is changed in place.
#[derive(Debug, Clone, Copy)]
pub struct Stopwatch {
    /// The instant the stopwatch was last started at; `None` while it is
    /// stopped.
    pub start_time: Option<Instant>,
    /// The time gathered in the intervals that have ended.
    pub elapsed_before: Duration,
}

impl Default for Stopwatch {
    /// A stopwatch that starts running now, with nothing gathered.
    fn default() -> (watch: Self)
        ensures
            watch.start_time.is_some(),
            watch.elapsed_before.nanos == 0,
    {
        Self { start_time: Some(clock_now()), elapsed_before: Duration::zero() }
    }
}

impl Stopwatch {
    /// The stopwatch as a counter: the two hold the same and behave the
    /// same.
    pub open spec fn counter(self) -> Counter {
        Counter { start: self.start_time, elapsed: self.elapsed_before }
    }

    /// What the stopwatch shows when its current interval has lasted `live`.
    pub open spec fn reading(self, live: Duration) -> Duration {
        self.counter().reading(live)
    }

    /// The stopwatch that holds what `counter` holds.
    pub open spec fn of(counter: Counter) -> Stopwatch {
        Stopwatch { start_time: counter.start, elapsed_before: counter.elapsed }
    }

    /// A stopwatch from its two parts.
    pub fn new(start_time: Option<Instant>, elapsed_before: Duration) -> (watch: Self)
        ensures
            watch.start_time == start_time,
            watch.elapsed_before == elapsed_before,
    {
        Self { start_time, elapsed_before }
    }

    /// How long the current interval has lasted by the clock; the empty
    /// span for a stopped stopwatch.
    pub fn live(&self) -> (live: Duration)
        ensures
            self.start_time.is_none() ==> live.nanos == 0,
    {
        match self.start_time {
            Some(start_time) => time_since(&start_time),
            None => Duration::zero(),
        }
    }

    /// The elapsed time when the current interval has lasted `live`.
    pub fn elapsed_after(&self, live: Duration) -> (elapsed: Duration)
        ensures
            elapsed == self.reading(live),
    {
        match self.start_time {
            Some(_) => self.elapsed_before.saturating_add(live),
            None => self.elapsed_before,
        }
    }

    /// The elapsed time by the clock.
    pub fn elapsed(&self) -> (elapsed: Duration)
        ensures
            exists|live: Duration| elapsed == self.reading(live),
    {
        let live = self.live();
        self.elapsed_after(live)
    }

    /// Whether the stopwatch is running.
    pub fn started(&self) -> (running: bool)
        ensures
            running == self.start_time.is_some(),
    {
        self.start_time.is_some()
    }

    /// Starts a stopped stopwatch at `now`; a running one stays as it is.
    pub fn start_at(&mut self, now: Instant)
        ensures
            *final(self) == Stopwatch::of(old(self).counter().resumed(now)),
    {
        if self.start_time.is_none() {
            self.start_time = Some(now);
        }
    }

    /// Starts a stopped stopwatch at the present instant.
    pub fn start(&mut self)
        ensures
            exists|now: Instant| *final(self) == Stopwatch::of(old(self).counter().resumed(now)),
    {
        let now = clock_now();
        self.start_at(now);
    }

    /// Stops the stopwatch, folding the current interval of length `live`
    /// into what it has gathered.
    pub fn stop_after(&mut self, live: Duration)
        ensures
            *final(self) == Stopwatch::of(old(self).counter().halted(live)),
    {
        if self.start_time.is_some() {
            self.elapsed_before = self.elapsed_before.saturating_add(live);
            self.start_time = None;
        }
    }

    /// Stops the stopwatch by the clock.
    pub fn stop(&mut self)
        ensures
            exists|live: Duration|
                *final(self) == Stopwatch::of(old(self).counter().halted(live)),
    {
        let live = self.live();
        self.stop_after(live);
    }

    /// Stops a running stopwatch whose current interval has lasted `live`,
    /// starts a stopped one at `now`.
    pub fn toggle_with(&mut self, now: Instant, live: Duration)
        ensures
            *final(self) == Stopwatch::of(old(self).counter().flipped(now, live)),
    {
        match self.start_time {
            Some(_) => {
                self.elapsed_before = self.elapsed_before.saturating_add(live);
                self.start_time = None;
            },
            None => {
                self.start_time = Some(now);
            },
        }
    }

    /// Stops a running stopwatch, starts a stopped one, by the clock.
    pub fn toggle(&mut self)
        ensures
            exists|now: Instant, live: Duration|
                *final(self) == Stopwatch::of(old(self).counter().flipped(now, live)),
    {
        let live = self.live();
        let now = clock_now();
        self.toggle_with(now, live);
    }
}

/// The counter after `command`, given at the instant `now` at which the
/// counter's current interval had lasted `live`: pause stops it, resume
/// starts it, toggle and enter do the one or the other, and nothing else
/// changes it.
pub open spec fn counter_after(counter: Counter, command: Command, now: Instant, live: Duration)
    -> Counter {
    match command {
        Command::Pause => counter.halted(live),
        Command::Resume => counter.resumed(now),
        Command::Toggle | Command::Enter => counter.flipped(now, live),
        _ => counter,
    }
}

/// The title shown above the time of a stopwatch.
pub const STOPWATCH_TITLE: &'static str = "Stopwatch";

/// The hint shown below the time of a stopwatch.
pub const STOPWATCH_CONTROLS: &'static str = "[Q]: quit, [Space]: pause/resume";

/// The lines shown for a stopwatch that has run for `elapsed`.
pub open spec fn stopwatch_picture(elapsed: Duration, is_running: bool) -> Seq<LineView> {
    seq![
        (STOPWATCH_TITLE@, None),
        (duration_text(elapsed), tint(is_running)),
        (STOPWATCH_CONTROLS@, None),
    ]
}

/// The frame to show for a stopwatch that has run for `elapsed`.
pub fn stopwatch_frame(elapsed: Duration, is_running: bool) -> (frame: Frame)
    ensures
        frame.shown() == stopwatch_picture(elapsed, is_running),
{
    let mut frame = Frame::new();
    frame.plain(STOPWATCH_TITLE);
    frame.line(format_duration(elapsed), Some(running_color(is_running)));
    frame.plain(STOPWATCH_CONTROLS);
    assert(frame.shown() =~= stopwatch_picture(elapsed, is_running));
    frame
}

/// The stopwatch as a program of its own: it runs until it is told to quit.
#[derive(Debug, Clone, Copy, Default)]
pub struct StopwatchUI {
    pub stopwatch: Stopwatch,
}

impl StopwatchUI {
    /// The frame to show when the stopwatch's current interval has lasted
    /// `live`.
    pub fn show_with(&self, live: Duration) -> (frame: Frame)
        ensures
            frame.shown() == stopwatch_picture(
                self.stopwatch.reading(live),
                self.stopwatch.start_time.is_some(),
            ),
    {
        let elapsed = self.stopwatch.elapsed_after(live);
        let is_running = self.stopwatch.started();
        stopwatch_frame(elapsed, is_running)
    }

    /// The frame to show by the clock.
    pub fn show(&self) -> (frame: Frame)
        ensures
            exists|live: Duration|
                frame.shown() == stopwatch_picture(
                    self.stopwatch.reading(live),
                    self.stopwatch.start_time.is_some(),
                ),
    {
        let live = self.stopwatch.live();
        self.show_with(live)
    }

    /// Takes a command given at the instant `now` at which the stopwatch's
    /// current interval had lasted `live`.
    pub fn update_with(&mut self, command: Command, now: Instant, live: Duration)
        ensures
            final(self).stopwatch == Stopwatch::of(
                counter_after(old(self).stopwatch.counter(), command, now, live),
            ),
    {
        match command {
            Command::Pause => self.stopwatch.stop_after(live),
            Command::Resume => self.stopwatch.start_at(now),
            Command::Toggle | Command::Enter => self.stopwatch.toggle_with(now, live),
            _ => (),
        }
    }

    /// Takes a command, by the clock.
    pub fn update(&mut self, command: Command)
        ensures
            exists|now: Instant, live: Duration|
                final(self).stopwatch == Stopwatch::of(
                    counter_after(old(self).stopwatch.counter(), command, now, live),
                ),
    {
        let live = self.stopwatch.live();
        let now = clock_now();
        self.update_with(command, now, live);
    }
}

/// What becomes of the stopwatch that counts the time beyond the end of a
/// phase, when a command is given.
#[derive(Debug, Clone, Copy)]
pub enum ExcessStep {
    /// The stopwatch counts on, as the command left it.
    Counting(Stopwatch),
    /// The next phase is asked for, after this much time beyond the end.
    Next(Duration),
    /// The user has quit, after this much time beyond the end.
    Quit(Duration),
}

/// What becomes of the stopwatch `watch` that counts the time beyond the
/// end of a phase, when `command` is given at the instant `now` at which
/// the stopwatch's current interval had lasted `live`. Enter asks for the
/// next phase and quit leaves, each with the time that the stopwatch shows;
/// pause stops the stopwatch, resume starts it, toggle does the one or the
/// other; any other command lets it count on as it is.
pub open spec fn excess_after(watch: Stopwatch, command: Command, now: Instant, live: Duration)
    -> ExcessStep {
    match command {
        Command::Quit => ExcessStep::Quit(watch.reading(live)),
        Command::Enter => ExcessStep::Next(watch.reading(live)),
        Command::Pause => ExcessStep::Counting(Stopwatch::of(watch.counter().halted(live))),
        Command::Resume => ExcessStep::Counting(Stopwatch::of(watch.counter().resumed(now))),
        Command::Toggle => ExcessStep::Counting(
            Stopwatch::of(watch.counter().flipped(now, live)),
        ),
        _ => ExcessStep::Counting(watch),
    }
}

/// Takes a command for the stopwatch that counts the time beyond the end of
/// a phase, given at the instant `now` at which its current interval had
/// lasted `live`.
pub fn excess_counting_with(watch: Stopwatch, command: Command, now: Instant, live: Duration) -> (step:
    ExcessStep)
    ensures
        step == excess_after(watch, command, now, live),
{
    let mut st = watch;
    match command {
        Command::Quit => ExcessStep::Quit(st.elapsed_after(live)),
        Command::Pause => {
            st.stop_after(live);
            ExcessStep::Counting(st)
        },
        Command::Resume => {
            st.start_at(now);
            ExcessStep::Counting(st)
        },
        Command::Toggle => {
            st.toggle_with(now, live);
            ExcessStep::Counting(st)
        },
        Command::Enter => ExcessStep::Next(st.elapsed_after(live)),
        _ => ExcessStep::Counting(st),
    }
}

/// Takes a command for the stopwatch that counts the time beyond the end of
/// a phase, by the clock.
pub fn start_excess_counting(watch: Stopwatch, command: Command) -> (step: ExcessStep)
    ensures
        exists|now: Instant, live: Duration| step == excess_after(watch, command, now, live),
{
    let live = watch.live();
    let now = clock_now();
    excess_counting_with(watch, command, now, live)
}

/// The state of a stopwatch that is handed from command to command.
#[derive(Debug, Clone, Copy)]
pub struct StopwatchState {
    pub counter: Counter,
}

impl StopwatchState {
    /// The state after `command`, given at the instant `now` at which the
    /// counter's current interval had lasted `live`; `None` where the
    /// command is to quit.
    pub open spec fn after(self, command: Command, now: Instant, live: Duration) -> Option<
        StopwatchState,
    > {
        if command == Command::Quit {
            None
        } else {
            Some(StopwatchState { counter: counter_after(self.counter, command, now, live) })
        }
    }

    /// A stopwatch that has gathered `start_time` and starts running at
    /// `now`.
    pub fn new_at(start_time: Duration, now: Instant) -> (state: Self)
        ensures
            state.counter == (Counter { start: Some(now), elapsed: start_time }),
    {
        let counter = Counter::from(start_time).start_at(now);
        Self { counter }
    }

    /// A stopwatch that has gathered `start_time` and starts running now.
    pub fn new(start_time: Duration) -> (state: Self)
        ensures
            state.counter.running(),
            state.counter.elapsed == start_time,
    {
        let counter = Counter::from(start_time).start();
        Self { counter }
    }

    /// The frame to show when the counter's current interval has lasted
    /// `live`.
    pub fn show_with(&self, live: Duration) -> (frame: Frame)
        ensures
            frame.shown() == stopwatch_picture(self.counter.reading(live), self.counter.running()),
    {
        stopwatch_frame(self.counter.elapsed_after(live), self.counter.started())
    }

    /// The frame to show by the clock.
    pub fn show(&self) -> (frame: Frame)
        ensures
            exists|live: Duration|
                frame.shown() == stopwatch_picture(
                    self.counter.reading(live),
                    self.counter.running(),
                ),
    {
        let live = self.counter.live();
        self.show_with(live)
    }

    /// The state after `command`, given at the instant `now` at which the
    /// counter's current interval had lasted `live`.
    pub fn handle_command_with(self, cmd: Command, now: Instant, live: Duration) -> (next: Option<
        Self,
    >)
        ensures
            next == self.after(cmd, now, live),
    {
        let Self { counter } = self;
        match cmd {
            Command::Quit => None,
            Command::Pause => Some(Self { counter: counter.stop_after(live) }),
            Command::Resume => Some(Self { counter: counter.start_at(now) }),
            Command::Toggle | Command::Enter => Some(
                Self { counter: counter.toggle_with(now, live) },
            ),
            _ => Some(Self { counter }),
        }
    }

    /// The state after `command`, by the clock.
    pub fn handle_command(self, cmd: Command) -> (next: Option<Self>)
        ensures
            exists|now: Instant, live: Duration| next == self.after(cmd, now, live),
    {
        let live = self.counter.live();
        let now = clock_now();
        self.handle_command_with(cmd, now, live)
    }
}

} // verus!
