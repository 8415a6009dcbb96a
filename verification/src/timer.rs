//! The timer: a stopwatch that runs towards a target and says so once when
//! it gets there.

use crate::alert::Alerter;
use crate::counter::{relate, time_relation, Counter, DoubleEndedDuration};
use crate::display::{prefixed, running_color, tint, Frame, LineView};
use crate::format::{duration_text, format_duration};
use crate::input::Command;
use crate::stopwatch::{counter_after, Stopwatch};
use crate::time::{clock_now, Duration};
use std::time::Instant;
use vstd::prelude::*;
use vstd::string::StringExecFns;

verus! {

/// The hint shown below the time.
pub const TIMER_CONTROLS: &'static str = "[Q]: quit, [Space]: pause/resume";

/// The title of the alert that a timer sends when it ends.
pub const TIMER_ALERT_TITLE: &'static str = "The timer has ended!";

/// The body of the alert that a timer with this target sends when it ends.
pub open spec fn timer_alert_body(target: Duration) -> Seq<char> {
    "Your Timer of "@ + duration_text(target) + " has ended"@
}

/// The lines shown for a timer that has run for `elapsed` towards `target`:
/// the time that is left, or, from the target on, the time beyond it behind
/// a plus sign.
pub open spec fn timer_picture(elapsed: Duration, target: Duration, is_running: bool) -> Seq<
    LineView,
> {
    if elapsed.nanos < target.nanos {
        seq![
            ("Timer"@, None),
            (duration_text(target.minus(elapsed)), tint(is_running)),
            (TIMER_CONTROLS@, None),
        ]
    } else {
        seq![
            ("Timer has ended"@, None),
            ("+"@ + duration_text(elapsed.minus(target)), tint(is_running)),
            (TIMER_CONTROLS@, None),
        ]
    }
}

/// The body of the alert of a timer with this target.
pub fn timer_alert_message(target: Duration) -> (body: String)
    ensures
        body@ == timer_alert_body(target),
{
    let mut body = String::from_str("Your Timer of ");
    body.append(format_duration(target).as_str());
    body.append(" has ended");
    assert(body@ =~= timer_alert_body(target));
    body
}

/// The frame to show for a timer that has run for `elapsed` towards
/// `target`, and the alert to send with it: the first frame at or beyond the
/// target comes with the alert, later ones come without.
pub fn timer_show(elapsed: Duration, target: Duration, is_running: bool, alerter: &mut Alerter) -> (shown:
    (Frame, Option<(String, String)>))
    ensures
        shown.0.shown() == timer_picture(elapsed, target, is_running),
        final(alerter).0 == (old(alerter).0 || elapsed.nanos >= target.nanos),
        shown.1.is_some() == (elapsed.nanos >= target.nanos && !old(alerter).0),
        shown.1 matches Some(text) ==> text.0@ == TIMER_ALERT_TITLE@ && text.1@
            == timer_alert_body(target),
{
    let mut frame = Frame::new();
    let mut notice: Option<(String, String)> = None;
    if elapsed.nanos < target.nanos {
        let time_left = target.saturating_sub(elapsed);
        frame.plain("Timer");
        frame.line(format_duration(time_left), Some(running_color(is_running)));
        frame.plain(TIMER_CONTROLS);
    } else {
        if alerter.alert_once(TIMER_ALERT_TITLE, "").is_some() {
            notice = Some((String::from_str(TIMER_ALERT_TITLE), timer_alert_message(target)));
        }
        let excess_time = format_duration(elapsed.saturating_sub(target));
        frame.plain("Timer has ended");
        frame.line(prefixed("+", excess_time.as_str()), Some(running_color(is_running)));
        frame.plain(TIMER_CONTROLS);
    }
    assert(frame.shown() =~= timer_picture(elapsed, target, is_running));
    (frame, notice)
}

/// Takes a command given at the instant `now` at which the stopwatch's
/// current interval had lasted `live`: pause stops it, resume starts it,
/// toggle and enter do the one or the other.
pub fn timer_update_with(command: Command, stopwatch: &mut Stopwatch, now: Instant, live: Duration)
    ensures
        *final(stopwatch) == Stopwatch::of(
            counter_after(old(stopwatch).counter(), command, now, live),
        ),
{
    match command {
        Command::Pause => stopwatch.stop_after(live),
        Command::Resume => stopwatch.start_at(now),
        Command::Toggle | Command::Enter => stopwatch.toggle_with(now, live),
        _ => (),
    }
}

/// Takes a command, by the clock.
pub fn timer_update(command: Command, stopwatch: &mut Stopwatch)
    ensures
        exists|now: Instant, live: Duration|
            *final(stopwatch) == Stopwatch::of(
                counter_after(old(stopwatch).counter(), command, now, live),
            ),
{
    let live = stopwatch.live();
    let now = clock_now();
    timer_update_with(command, stopwatch, now, live);
}

/// A timer that is run in place.
#[derive(Debug, Clone, Copy)]
pub struct TimerUI {
    pub stopwatch: Stopwatch,
    pub target: Duration,
    pub alerter: Alerter,
}

impl Default for TimerUI {
    /// A timer with nothing to wait for, running from now.
    fn default() -> (ui: Self)
        ensures
            ui.target.nanos == 0,
            !ui.alerter.0,
            ui.stopwatch.start_time.is_some(),
            ui.stopwatch.elapsed_before.nanos == 0,
    {
        Self { stopwatch: Stopwatch::default(), target: Duration::zero(), alerter: Alerter::default() }
    }
}

impl TimerUI {
    /// A timer that runs towards `target` from now.
    pub fn new(target: Duration) -> (ui: Self)
        ensures
            ui.target == target,
            !ui.alerter.0,
            ui.stopwatch.start_time.is_some(),
            ui.stopwatch.elapsed_before.nanos == 0,
    {
        Self { stopwatch: Stopwatch::default(), target, alerter: Alerter::default() }
    }

    /// Where the timer stands against its target when the stopwatch's
    /// current interval has lasted `live`.
    pub fn time_relation_after(&self, live: Duration) -> (relation: DoubleEndedDuration)
        ensures
            relation == time_relation(self.stopwatch.reading(live), self.target),
    {
        relate(self.stopwatch.elapsed_after(live), self.target)
    }

    /// The frame to show when the stopwatch's current interval has lasted
    /// `live`, and the alert to send with it, if one is due.
    pub fn show_with(&mut self, live: Duration) -> (shown: (Frame, Option<(String, String)>))
        ensures
            *final(self) == old(self).seen(live),
            shown.0.shown() == old(self).picture(live),
            shown.1.is_some() == old(self).announces(live),
            shown.1 matches Some(text) ==> text.0@ == TIMER_ALERT_TITLE@ && text.1@
                == timer_alert_body(old(self).target),
    {
        let elapsed = self.stopwatch.elapsed_after(live);
        let is_running = self.stopwatch.started();
        timer_show(elapsed, self.target, is_running, &mut self.alerter)
    }

    /// The frame to show by the clock, and the alert to send with it, if
    /// one is due.
    pub fn show(&mut self) -> (shown: (Frame, Option<(String, String)>))
        ensures
            exists|live: Duration|
                *final(self) == old(self).seen(live) && shown.0.shown() == old(self).picture(live)
                    && shown.1.is_some() == old(self).announces(live),
            shown.1 matches Some(text) ==> text.0@ == TIMER_ALERT_TITLE@ && text.1@
                == timer_alert_body(old(self).target),
    {
        let live = self.stopwatch.live();
        self.show_with(live)
    }

    /// The lines shown when the stopwatch's current interval has lasted
    /// `live`.
    pub open spec fn picture(self, live: Duration) -> Seq<LineView> {
        timer_picture(self.stopwatch.reading(live), self.target, self.stopwatch.start_time.is_some())
    }

    /// Whether showing the timer at that reading announces its end: the
    /// target is reached and nothing was announced yet.
    pub open spec fn announces(self, live: Duration) -> bool {
        self.stopwatch.reading(live).nanos >= self.target.nanos && !self.alerter.0
    }

    /// The timer after it was shown at that reading: the latch is closed
    /// once the end was on the screen.
    pub open spec fn seen(self, live: Duration) -> TimerUI {
        TimerUI {
            stopwatch: self.stopwatch,
            target: self.target,
            alerter: Alerter(
                self.alerter.0 || self.stopwatch.reading(live).nanos >= self.target.nanos,
            ),
        }
    }

    /// The timer after `command`, given at the instant `now` at which the
    /// stopwatch's current interval had lasted `live`.
    pub open spec fn after(self, command: Command, now: Instant, live: Duration) -> TimerUI {
        TimerUI {
            stopwatch: Stopwatch::of(counter_after(self.stopwatch.counter(), command, now, live)),
            target: self.target,
            alerter: self.alerter,
        }
    }

    /// Takes a command given at the instant `now` at which the stopwatch's
    /// current interval had lasted `live`.
    pub fn update_with(&mut self, command: Command, now: Instant, live: Duration)
        ensures
            *final(self) == old(self).after(command, now, live),
    {
        timer_update_with(command, &mut self.stopwatch, now, live)
    }

    /// Takes a command, by the clock.
    pub fn update(&mut self, command: Command)
        ensures
            exists|now: Instant, live: Duration| *final(self) == old(self).after(command, now, live),
    {
        let live = self.stopwatch.live();
        let now = clock_now();
        self.update_with(command, now, live);
    }
}

/// The state of a timer that is handed from command to command.
#[derive(Debug, Clone, Copy)]
pub struct TimerState {
    pub counter: Counter,
    pub target: Duration,
    /// Whether the end of the timer has been announced.
    pub alert: bool,
}

impl TimerState {
    /// The state after `command`, given at the instant `now` at which the
    /// counter's current interval had lasted `live`; `None` where the
    /// command is to quit.
    pub open spec fn after(self, command: Command, now: Instant, live: Duration) -> Option<
        TimerState,
    > {
        if command == Command::Quit {
            None
        } else {
            Some(
                TimerState {
                    counter: counter_after(self.counter, command, now, live),
                    target: self.target,
                    alert: self.alert,
                },
            )
        }
    }

    /// Whether the timer has reached its target at that reading.
    pub open spec fn over_time(self, live: Duration) -> bool {
        self.counter.reading(live).nanos >= self.target.nanos
    }

    /// A timer that runs towards `target` from `now`.
    pub fn new_at(target: Duration, now: Instant) -> (state: Self)
        ensures
            state == (TimerState {
                counter: Counter { start: Some(now), elapsed: Duration { nanos: 0 } },
                target,
                alert: false,
            }),
    {
        Self { counter: Counter::new(Some(now), Duration::zero()), target, alert: false }
    }

    /// A timer that runs towards `target` from now.
    pub fn new(target: Duration) -> (state: Self)
        ensures
            state.counter.running(),
            state.counter.elapsed.nanos == 0,
            state.target == target,
            !state.alert,
    {
        Self { counter: Counter::default(), target, alert: false }
    }

    /// The frame to show when the counter's current interval has lasted
    /// `live`.
    pub fn show_with(&self, live: Duration) -> (frame: Frame)
        ensures
            frame.shown() == timer_picture(
                self.counter.reading(live),
                self.target,
                self.counter.running(),
            ),
    {
        let elapsed = self.counter.elapsed_after(live);
        let mut frame = Frame::new();
        if elapsed.nanos < self.target.nanos {
            let time_left = self.target.saturating_sub(elapsed);
            frame.plain("Timer");
            frame.line(format_duration(time_left), Some(running_color(self.counter.started())));
            frame.plain(TIMER_CONTROLS);
        } else {
            let excess_time = elapsed.saturating_sub(self.target);
            frame.plain("Timer has ended");
            frame.line(
                prefixed("+", format_duration(excess_time).as_str()),
                Some(running_color(self.counter.started())),
            );
            frame.plain(TIMER_CONTROLS);
        }
        assert(frame.shown() =~= timer_picture(
            self.counter.reading(live),
            self.target,
            self.counter.running(),
        ));
        frame
    }

    /// The frame to show by the clock.
    pub fn show(&self) -> (frame: Frame)
        ensures
            exists|live: Duration|
                frame.shown() == timer_picture(
                    self.counter.reading(live),
                    self.target,
                    self.counter.running(),
                ),
    {
        let live = self.counter.live();
        self.show_with(live)
    }

    /// The state after `command`, given at the instant `now` at which the
    /// counter's current interval had lasted `live`.
    pub fn handle_command_with(self, command: Command, now: Instant, live: Duration) -> (next:
        Option<Self>)
        ensures
            next == self.after(command, now, live),
    {
        match command {
            Command::Quit => None,
            Command::Pause => Some(Self { counter: self.counter.stop_after(live), ..self }),
            Command::Resume => Some(Self { counter: self.counter.start_at(now), ..self }),
            Command::Toggle | Command::Enter => Some(
                Self { counter: self.counter.toggle_with(now, live), ..self },
            ),
            _ => Some(self),
        }
    }

    /// The state after `command`, by the clock.
    pub fn handle_command(self, command: Command) -> (next: Option<Self>)
        ensures
            exists|now: Instant, live: Duration| next == self.after(command, now, live),
    {
        let live = self.counter.live();
        let now = clock_now();
        self.handle_command_with(command, now, live)
    }

    /// Whether the end of the timer has been announced.
    pub fn alerted(&self) -> (alerted: bool)
        ensures
            alerted == self.alert,
    {
        self.alert
    }

    /// Closes or opens the latch.
    pub fn set_alert(&mut self, alert: bool)
        ensures
            *final(self) == (TimerState { alert, ..*old(self) }),
    {
        self.alert = alert;
    }

    /// Whether the timer has reached its target when the counter's current
    /// interval has lasted `live`.
    pub fn should_alert_after(&self, live: Duration) -> (due: bool)
        ensures
            due == self.over_time(live),
    {
        self.counter.elapsed_after(live).nanos >= self.target.nanos
    }

    /// Whether the timer has reached its target by the clock.
    pub fn should_alert(&self) -> (due: bool)
        ensures
            exists|live: Duration| due == self.over_time(live),
    {
        let live = self.counter.live();
        self.should_alert_after(live)
    }

    /// Looks at the timer when the counter's current interval has lasted
    /// `live`. If the target is reached and this was not announced before,
    /// closes the latch and gives the title and the body of the alert to
    /// send; otherwise changes nothing and gives `None`.
    pub fn poll_alert_after(&mut self, live: Duration) -> (notice: Option<(String, String)>)
        ensures
            *final(self) == old(self).polled(live),
            notice.is_some() == old(self).announces(live),
            notice matches Some(text) ==> text.0@ == TIMER_ALERT_TITLE@ && text.1@
                == timer_alert_body(old(self).target),
    {
        if self.should_alert_after(live) && !self.alerted() {
            self.alert = true;
            Some((String::from_str(TIMER_ALERT_TITLE), timer_alert_message(self.target)))
        } else {
            None
        }
    }

    /// Looks at the timer by the clock and gives the alert to send, if one
    /// is due.
    pub fn poll_alert(&mut self) -> (notice: Option<(String, String)>)
        ensures
            exists|live: Duration|
                *final(self) == old(self).polled(live) && notice.is_some() == old(self).announces(
                    live,
                ),
            notice matches Some(text) ==> text.0@ == TIMER_ALERT_TITLE@ && text.1@
                == timer_alert_body(old(self).target),
    {
        let live = self.counter.live();
        self.poll_alert_after(live)
    }
}

impl TimerState {
    /// Whether a look at the timer at that reading announces its end: the
    /// target is reached and nothing was announced yet.
    pub open spec fn announces(self, live: Duration) -> bool {
        self.over_time(live) && !self.alert
    }

    /// The timer after a look at that reading: the latch is closed once the
    /// target was found reached.
    pub open spec fn polled(self, live: Duration) -> TimerState {
        TimerState { alert: self.alert || self.over_time(live), ..self }
    }
}

/// One thing that happens to a timer while it runs.
pub enum TimerEvent {
    /// The event loop looks whether the alert is due, when the counter's
    /// current interval has lasted this long.
    Poll(Duration),
    /// The user gives a command at this instant, when the counter's current
    /// interval has lasted this long.
    Input(Command, Instant, Duration),
}

/// The timer after the events of `trace`, in order. A command that ends
/// the timer leaves the state as it was.
pub open spec fn timer_run(state: TimerState, trace: Seq<TimerEvent>) -> TimerState
    decreases trace.len(),
{
    if trace.len() == 0 {
        state
    } else {
        let before = timer_run(state, trace.drop_last());
        match trace.last() {
            TimerEvent::Poll(live) => before.polled(live),
            TimerEvent::Input(command, now, live) => match before.after(command, now, live) {
                Some(next) => next,
                None => before,
            },
        }
    }
}

/// How many alerts are sent over the events of `trace`.
pub open spec fn timer_alerts(state: TimerState, trace: Seq<TimerEvent>) -> nat
    decreases trace.len(),
{
    if trace.len() == 0 {
        0
    } else {
        let before = timer_run(state, trace.drop_last());
        let sent = timer_alerts(state, trace.drop_last());
        match trace.last() {
            TimerEvent::Poll(live) => if before.announces(live) {
                sent + 1
            } else {
                sent
            },
            TimerEvent::Input(..) => sent,
        }
    }
}

/// A timer announces its end at most once. A look that finds the target
/// reached closes the latch, so that no later look announces anything,
/// however much later it comes; no command opens the latch again or moves
/// the target; and over any run of looks and commands the alerts sent are
/// exactly those that closed the latch: one or none, and none at all for a
/// timer whose latch was closed from the start.
pub proof fn law_timer_alerts_once(
    state: TimerState,
    first: Duration,
    second: Duration,
    command: Command,
    now: Instant,
    live: Duration,
    trace: Seq<TimerEvent>,
)
    ensures
        state.over_time(first) ==> state.polled(first).alert && !state.polled(first).announces(
            second,
        ),
        state.announces(first) ==> !state.polled(first).announces(second),
        state.after(command, now, live) matches Some(next) ==> next.alert == state.alert
            && next.target == state.target,
        timer_run(state, trace).target == state.target,
        timer_alerts(state, trace) + (if state.alert {
            1int
        } else {
            0int
        }) == (if timer_run(state, trace).alert {
            1int
        } else {
            0int
        }),
        timer_alerts(state, trace) <= 1,
        state.alert ==> timer_alerts(state, trace) == 0,
    decreases trace.len(),
{
    if trace.len() > 0 {
        law_timer_alerts_once(state, first, second, command, now, live, trace.drop_last());
    }
}

/// A timer in place announces its end at most once: showing it at or
/// beyond the target closes the latch, a later frame announces nothing, and
/// no command opens the latch again.
pub proof fn law_timer_shown_once(
    ui: TimerUI,
    first: Duration,
    second: Duration,
    command: Command,
    now: Instant,
    live: Duration,
)
    ensures
        ui.announces(first) ==> ui.seen(first).alerter.0 && !ui.seen(first).announces(second),
        ui.alerter.0 ==> !ui.announces(first) && ui.seen(first).alerter.0,
        ui.after(command, now, live).alerter == ui.alerter,
        ui.after(command, now, live).target == ui.target,
{
}

} // verus!
