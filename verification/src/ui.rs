//! A timer or a pomodoro behind one face, handed from command to command
//! until it is told to quit.

use crate::display::{Frame, LineView};
use crate::input::Command;
use crate::pomodoro::{
    alert_message_text, farewell_text, PomoState, PomodoroConfig, PomodoroUI, UIMode,
};
use crate::stopwatch::{
    counter_after, stopwatch_picture, Stopwatch, StopwatchState, StopwatchUI,
};
use crate::time::{clock_now, Duration};
use crate::timer::{
    timer_alert_body, timer_picture, TimerState, TimerUI, TIMER_ALERT_TITLE,
};
use std::time::Instant;
use vstd::prelude::*;
use vstd::string::StringExecFns;

verus! {

/// What is on the screen: a timer, a pomodoro, or nothing any more.
#[derive(Debug, Clone, Copy)]
pub enum PorsmoUI {
    Timer(TimerUI),
    Pomodoro(PomodoroUI),
    /// The user has quit.
    Ended,
}

impl PorsmoUI {
    /// What the stopwatch inside shows when its current interval has lasted
    /// `live`.
    pub open spec fn stopwatch(self) -> Option<Stopwatch> {
        match self {
            PorsmoUI::Timer(timer) => Some(timer.stopwatch),
            PorsmoUI::Pomodoro(pomo) => match pomo.ui_mode {
                UIMode::Running(watch) => Some(watch),
                UIMode::Skip(_) => None,
            },
            PorsmoUI::Ended => None,
        }
    }

    /// What is on the screen after `command`, given at the instant `now` at
    /// which the stopwatch's current interval had lasted `live`. Quit ends a
    /// timer and a pomodoro that is counting; to a pomodoro that asks whether
    /// to skip it is the answer no. Every other command goes to the timer or
    /// to the pomodoro.
    pub open spec fn after(self, command: Command, now: Instant, live: Duration) -> PorsmoUI {
        match self {
            PorsmoUI::Timer(timer) => if command == Command::Quit {
                PorsmoUI::Ended
            } else {
                PorsmoUI::Timer(
                    TimerUI {
                        stopwatch: Stopwatch::of(
                            crate::stopwatch::counter_after(
                                timer.stopwatch.counter(),
                                command,
                                now,
                                live,
                            ),
                        ),
                        target: timer.target,
                        alerter: timer.alerter,
                    },
                )
            },
            PorsmoUI::Pomodoro(pomo) => if command == Command::Quit && pomo.ui_mode is Running {
                PorsmoUI::Ended
            } else {
                PorsmoUI::Pomodoro(pomo.after(command, now, live))
            },
            PorsmoUI::Ended => PorsmoUI::Ended,
        }
    }

    /// The lines shown at that reading; none once the user has quit.
    pub open spec fn picture(self, live: Duration) -> Seq<LineView> {
        match self {
            PorsmoUI::Timer(timer) => timer_picture(
                timer.stopwatch.reading(live),
                timer.target,
                timer.stopwatch.start_time.is_some(),
            ),
            PorsmoUI::Pomodoro(pomo) => pomo.picture(live),
            PorsmoUI::Ended => Seq::empty(),
        }
    }

    /// How long the stopwatch's current interval has lasted by the clock.
    pub fn live(&self) -> (live: Duration)
        ensures
            !(self.stopwatch() matches Some(watch) && watch.start_time.is_some()) ==> live.nanos
                == 0,
    {
        match self {
            PorsmoUI::Timer(timer) => timer.stopwatch.live(),
            PorsmoUI::Pomodoro(pomo) => pomo.live(),
            PorsmoUI::Ended => Duration::zero(),
        }
    }

    /// What is on the screen after `command`, given at the instant `now` at
    /// which the stopwatch's current interval had lasted `live`.
    pub fn handle_command_with(self, command: Command, now: Instant, live: Duration) -> (next: Self)
        ensures
            next == self.after(command, now, live),
    {
        match self {
            Self::Timer(timer) => match command {
                Command::Quit => Self::Ended,
                _ => {
                    let mut timer = timer;
                    timer.update_with(command, now, live);
                    Self::Timer(timer)
                },
            },
            Self::Pomodoro(pomo) => {
                let counting = match pomo.ui_mode {
                    UIMode::Running(_) => true,
                    UIMode::Skip(_) => false,
                };
                match command {
                    Command::Quit => if counting {
                        Self::Ended
                    } else {
                        let mut pomo = pomo;
                        pomo.update_with(command, now, live);
                        Self::Pomodoro(pomo)
                    },
                    _ => {
                        let mut pomo = pomo;
                        pomo.update_with(command, now, live);
                        Self::Pomodoro(pomo)
                    },
                }
            },
            Self::Ended => Self::Ended,
        }
    }

    /// What is on the screen after `command`, by the clock.
    pub fn handle_command(self, command: Command) -> (next: Self)
        ensures
            exists|now: Instant, live: Duration| next == self.after(command, now, live),
    {
        let live = self.live();
        let now = clock_now();
        self.handle_command_with(command, now, live)
    }

    /// Whether the user has quit.
    pub fn ended(&self) -> (ended: bool)
        ensures
            ended == (*self is Ended),
    {
        match self {
            Self::Ended => true,
            _ => false,
        }
    }

    /// Whether showing the screen at that reading announces an end: that of
    /// the timer, or that of the current phase of the pomodoro. An ended
    /// screen announces nothing.
    pub open spec fn announces(self, live: Duration) -> bool {
        match self {
            PorsmoUI::Timer(timer) => timer.announces(live),
            PorsmoUI::Pomodoro(pomo) => pomo.announces(live),
            PorsmoUI::Ended => false,
        }
    }

    /// The screen after it was shown at that reading: the latch of the
    /// timer or of the pomodoro is closed once its end was on the screen.
    pub open spec fn seen(self, live: Duration) -> PorsmoUI {
        match self {
            PorsmoUI::Timer(timer) => PorsmoUI::Timer(timer.seen(live)),
            PorsmoUI::Pomodoro(pomo) => PorsmoUI::Pomodoro(pomo.seen(live)),
            PorsmoUI::Ended => PorsmoUI::Ended,
        }
    }

    /// The title and the body of the alert that the screen sends when it
    /// announces an end.
    pub open spec fn words(self) -> (Seq<char>, Seq<char>) {
        match self {
            PorsmoUI::Timer(timer) => (TIMER_ALERT_TITLE@, timer_alert_body(timer.target)),
            PorsmoUI::Pomodoro(pomo) => alert_message_text(pomo.session.next_mode()),
            PorsmoUI::Ended => (Seq::empty(), Seq::empty()),
        }
    }

    /// The frame to show when the stopwatch's current interval has lasted
    /// `live`, and the alert to send with it, if one is due.
    pub fn show_with(&mut self, live: Duration) -> (shown: (Frame, Option<(String, String)>))
        ensures
            *final(self) == old(self).seen(live),
            shown.0.shown() == old(self).picture(live),
            shown.1.is_some() == old(self).announces(live),
            shown.1 matches Some(text) ==> (text.0@, text.1@) == old(self).words(),
    {
        match *self {
            Self::Timer(timer) => {
                let mut timer = timer;
                let shown = timer.show_with(live);
                *self = Self::Timer(timer);
                shown
            },
            Self::Pomodoro(pomo) => {
                let mut pomo = pomo;
                let shown = pomo.show_with(live);
                *self = Self::Pomodoro(pomo);
                shown
            },
            Self::Ended => (Frame::new(), None),
        }
    }

    /// The frame to show by the clock, and the alert to send with it, if
    /// one is due.
    pub fn show(&mut self) -> (shown: (Frame, Option<(String, String)>))
        ensures
            exists|live: Duration|
                *final(self) == old(self).seen(live) && shown.0.shown() == old(self).picture(live)
                    && shown.1.is_some() == old(self).announces(live),
            shown.1 matches Some(text) ==> (text.0@, text.1@) == old(self).words(),
    {
        let live = self.live();
        self.show_with(live)
    }

    /// A timer that runs towards `initial` from now.
    pub fn timer(initial: Duration) -> (ui: Self)
        ensures
            ui matches PorsmoUI::Timer(timer) && timer.target == initial && !timer.alerter.0
                && timer.stopwatch.start_time.is_some() && timer.stopwatch.elapsed_before.nanos
                == 0,
    {
        PorsmoUI::Timer(TimerUI::new(initial))
    }

    /// The pomodoro of `config`, at the start of its first work phase.
    pub fn pomodoro(config: PomodoroConfig) -> (ui: Self)
        ensures
            ui matches PorsmoUI::Pomodoro(pomo) && pomo.config == config && !pomo.alerter.0
                && pomo.session == crate::pomodoro::Session::first(),
    {
        PorsmoUI::Pomodoro(PomodoroUI::new(config))
    }
}

/// A counter that is run in place: it is shown, takes commands, and says
/// goodbye when it is left.
pub trait CounterUI: Sized {
    /// The frame to show by the clock, and the alert to send with it, if
    /// one is due.
    fn show(&mut self) -> (Frame, Option<(String, String)>);

    /// Takes a command, by the clock.
    fn update(&mut self, command: Command);

    /// Whether `command` ends the counter instead of being taken by it.
    fn quits(&self, command: Command) -> bool;

    /// Leaves the counter, and gives the text to print afterwards.
    fn run_ui(self) -> String;
}

impl CounterUI for StopwatchUI {
    /// The frame of the stopwatch by the clock. A stopwatch has no end to
    /// announce, and showing it changes nothing.
    fn show(&mut self) -> (shown: (Frame, Option<(String, String)>))
        ensures
            *final(self) == *old(self),
            shown.1.is_none(),
            exists|live: Duration|
                shown.0.shown() == stopwatch_picture(
                    old(self).stopwatch.reading(live),
                    old(self).stopwatch.start_time.is_some(),
                ),
    {
        (StopwatchUI::show(self), None)
    }

    /// Pause stops the stopwatch, resume starts it, toggle and enter do the
    /// one or the other, by the clock.
    fn update(&mut self, command: Command)
        ensures
            exists|now: Instant, live: Duration|
                final(self).stopwatch == Stopwatch::of(
                    counter_after(old(self).stopwatch.counter(), command, now, live),
                ),
    {
        StopwatchUI::update(self, command)
    }

    fn quits(&self, command: Command) -> (quits: bool)
        ensures
            quits == (command == Command::Quit),
    {
        match command {
            Command::Quit => true,
            _ => false,
        }
    }

    fn run_ui(self) -> (farewell: String)
        ensures
            farewell@.len() == 0,
    {
        String::new()
    }
}

impl CounterUI for TimerUI {
    /// The frame of the timer by the clock, and the alert to send with the
    /// first frame at or beyond the target, which closes the latch.
    fn show(&mut self) -> (shown: (Frame, Option<(String, String)>))
        ensures
            exists|live: Duration|
                *final(self) == old(self).seen(live) && shown.0.shown() == old(self).picture(live)
                    && shown.1.is_some() == old(self).announces(live),
            shown.1 matches Some(text) ==> text.0@ == TIMER_ALERT_TITLE@ && text.1@
                == timer_alert_body(old(self).target),
    {
        TimerUI::show(self)
    }

    /// Pause stops the timer's stopwatch, resume starts it, toggle and
    /// enter do the one or the other, by the clock. Target and latch stay.
    fn update(&mut self, command: Command)
        ensures
            exists|now: Instant, live: Duration| *final(self) == old(self).after(command, now, live),
    {
        TimerUI::update(self, command)
    }

    fn quits(&self, command: Command) -> (quits: bool)
        ensures
            quits == (command == Command::Quit),
    {
        match command {
            Command::Quit => true,
            _ => false,
        }
    }

    fn run_ui(self) -> (farewell: String)
        ensures
            farewell@.len() == 0,
    {
        String::new()
    }
}

impl CounterUI for PomodoroUI {
    /// The frame of the pomodoro by the clock, and the alert to send with
    /// the first frame of a phase that is over, which closes the latch.
    fn show(&mut self) -> (shown: (Frame, Option<(String, String)>))
        ensures
            exists|live: Duration|
                *final(self) == old(self).seen(live) && shown.0.shown() == old(self).picture(live)
                    && shown.1.is_some() == old(self).announces(live),
            shown.1 matches Some(text) ==> (text.0@, text.1@) == alert_message_text(
                old(self).session.next_mode(),
            ),
    {
        PomodoroUI::show(self)
    }

    /// Takes a command by the clock, as the table of commands says.
    fn update(&mut self, command: Command)
        ensures
            exists|now: Instant, live: Duration| *final(self) == old(self).after(command, now, live),
    {
        PomodoroUI::update(self, command)
    }

    /// Quit ends a pomodoro that is counting; at the skip prompt it is the
    /// answer no, and the pomodoro goes on.
    fn quits(&self, command: Command) -> (quits: bool)
        ensures
            quits == (command == Command::Quit && self.ui_mode is Running),
    {
        match command {
            Command::Quit => match self.ui_mode {
                UIMode::Running(_) => true,
                UIMode::Skip(_) => false,
            },
            _ => false,
        }
    }

    /// The farewell of the pomodoro, with the phase that is cut short by
    /// the clock added to the time spent.
    fn run_ui(self) -> (farewell: String)
        ensures
            exists|live: Duration| farewell@ == farewell_text(self.finished(live).session),
    {
        let mut ui = self;
        ui.finish()
    }
}

/// The state of a counter that is handed from command to command.
pub trait CounterUIState: Sized {
    /// The frame to show by the clock.
    fn show(&self) -> Frame;

    /// The state after `cmd`, by the clock; `None` where the command ends
    /// the counter.
    fn handle_command(self, cmd: Command) -> Option<Self>;
}

impl CounterUIState for StopwatchState {
    fn show(&self) -> (frame: Frame)
        ensures
            exists|live: Duration|
                frame.shown() == stopwatch_picture(
                    self.counter.reading(live),
                    self.counter.running(),
                ),
    {
        StopwatchState::show(self)
    }

    /// Quit ends the stopwatch; pause stops its counter, resume starts it,
    /// toggle and enter do the one or the other, by the clock.
    fn handle_command(self, cmd: Command) -> (next: Option<Self>)
        ensures
            exists|now: Instant, live: Duration| next == self.after(cmd, now, live),
            cmd == Command::Quit <==> next is None,
    {
        StopwatchState::handle_command(self, cmd)
    }
}

impl CounterUIState for TimerState {
    fn show(&self) -> (frame: Frame)
        ensures
            exists|live: Duration|
                frame.shown() == timer_picture(
                    self.counter.reading(live),
                    self.target,
                    self.counter.running(),
                ),
    {
        TimerState::show(self)
    }

    /// Quit ends the timer; pause stops its counter, resume starts it,
    /// toggle and enter do the one or the other, by the clock. Target and
    /// latch stay.
    fn handle_command(self, cmd: Command) -> (next: Option<Self>)
        ensures
            exists|now: Instant, live: Duration| next == self.after(cmd, now, live),
            cmd == Command::Quit <==> next is None,
    {
        TimerState::handle_command(self, cmd)
    }
}

impl CounterUIState for PomoState {
    fn show(&self) -> (frame: Frame)
        ensures
            exists|live: Duration| frame.shown() == self.picture(live),
    {
        PomoState::show(self)
    }

    /// The state after the command by the clock, as the table of commands
    /// says; `None` exactly for quit while the phase is being counted.
    fn handle_command(self, cmd: Command) -> (next: Option<Self>)
        ensures
            exists|now: Instant, live: Duration| next == self.after(cmd, now, live),
            next is None <==> cmd == Command::Quit && self.mode is Running,
    {
        PomoState::handle_command(self, cmd)
    }
}

/// A state that announces its end through a latch.
pub trait Alertable {
    /// Whether the latch is closed.
    spec fn latched(&self) -> bool;

    /// Whether the end is reached when the current interval has lasted
    /// `live`.
    spec fn due(&self, live: Duration) -> bool;

    /// The title and the body of the alert that announces the end.
    spec fn words(&self) -> (Seq<char>, Seq<char>);

    /// Whether the latch is closed.
    fn alerted(&self) -> (alerted: bool)
        ensures
            alerted == self.latched(),
    ;

    /// Closes or opens the latch. Nothing else changes.
    fn set_alert(&mut self, alert: bool)
        ensures
            final(self).latched() == alert,
            final(self).words() == old(self).words(),
            forall|live: Duration| #[trigger] final(self).due(live) == old(self).due(live),
    ;

    /// Whether the end is reached by the clock.
    fn should_alert(&self) -> (due: bool)
        ensures
            exists|live: Duration| due == self.due(live),
    ;

    /// The title and the body of the alert that announces the end. The
    /// state stays as it is.
    fn alert(&mut self) -> (notice: (String, String))
        ensures
            final(self).latched() == old(self).latched(),
            final(self).words() == old(self).words(),
            forall|live: Duration| #[trigger] final(self).due(live) == old(self).due(live),
            (notice.0@, notice.1@) == old(self).words(),
    ;
}

impl Alertable for TimerState {
    open spec fn latched(&self) -> bool {
        self.alert
    }

    open spec fn due(&self, live: Duration) -> bool {
        self.over_time(live)
    }

    open spec fn words(&self) -> (Seq<char>, Seq<char>) {
        (TIMER_ALERT_TITLE@, timer_alert_body(self.target))
    }

    fn alerted(&self) -> (alerted: bool) {
        TimerState::alerted(self)
    }

    fn set_alert(&mut self, alert: bool) {
        TimerState::set_alert(self, alert)
    }

    fn should_alert(&self) -> (due: bool) {
        let due = TimerState::should_alert(self);
        proof {
            let live = choose|live: Duration| due == self.over_time(live);
            assert(due == self.due(live));
        }
        due
    }

    fn alert(&mut self) -> (notice: (String, String))
        ensures
            *final(self) == *old(self),
            notice.0@ == crate::timer::TIMER_ALERT_TITLE@,
            notice.1@ == crate::timer::timer_alert_body(old(self).target),
    {
        (
            String::from_str(crate::timer::TIMER_ALERT_TITLE),
            crate::timer::timer_alert_message(self.target),
        )
    }
}

impl Alertable for PomoState {
    open spec fn latched(&self) -> bool {
        self.alert
    }

    open spec fn due(&self, live: Duration) -> bool {
        self.over_time(live)
    }

    open spec fn words(&self) -> (Seq<char>, Seq<char>) {
        crate::pomodoro::state::alert_text(self.session.successor().mode)
    }

    fn alerted(&self) -> (alerted: bool) {
        PomoState::alerted(self)
    }

    fn set_alert(&mut self, alert: bool) {
        PomoState::set_alert(self, alert)
    }

    fn should_alert(&self) -> (due: bool) {
        let due = PomoState::should_alert(self);
        proof {
            let live = choose|live: Duration| due == self.over_time(live);
            assert(due == self.due(live));
        }
        due
    }

    fn alert(&mut self) -> (notice: (String, String))
        ensures
            *final(self) == *old(self),
            (notice.0@, notice.1@) == crate::pomodoro::state::alert_text(
                old(self).session.successor().mode,
            ),
    {
        let (title, message) = PomoState::pomodoro_alert_message(self.session.next().mode);
        (String::from_str(title), String::from_str(message))
    }
}

/// Looks at a state by the clock and gives the alert to send, if one is
/// due: the alert is sent exactly if the end is reached at that reading and
/// the latch is open. The latch is closed once an alert was sent, whether
/// now or before; what the state announces and when its end is reached stay
/// as they are.
pub fn run_alerted<S: Alertable>(state: &mut S) -> (notice: Option<(String, String)>)
    ensures
        exists|live: Duration|
            notice.is_some() == (old(state).due(live) && !old(state).latched()),
        final(state).latched() == (old(state).latched() || notice.is_some()),
        notice matches Some(text) ==> (text.0@, text.1@) == old(state).words(),
        final(state).words() == old(state).words(),
        forall|live: Duration| #[trigger] final(state).due(live) == old(state).due(live),
{
    if state.should_alert() && !state.alerted() {
        state.set_alert(true);
        Some(state.alert())
    } else {
        None
    }
}

/// Once the user has quit, nothing brings the screen back: every command
/// leaves it ended.
pub proof fn law_ended_stays(command: Command, now: Instant, live: Duration)
    ensures
        PorsmoUI::Ended.after(command, now, live) is Ended,
{
}

} // verus!
