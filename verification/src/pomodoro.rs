//! The pomodoro cycle of work and breaks, run in place from commands.

pub mod pomoconfig;
pub mod pomomode;
pub mod pomosession;
pub mod state;

pub use pomoconfig::PomoConfig;
pub use pomomode::PomodoroMode;
pub use pomosession::PomodoroSession;
pub use state::{PomoState, PomoStateMode};

use crate::alert::Alerter;
use crate::config::AppConfig;
use crate::display::{label_number, numbered, prefixed, running_color, tint, Color, Frame, LineView};
use crate::format::{duration_text, format_duration};
use crate::input::Command;
use crate::pomodoro::pomoconfig::minutes;
use crate::pomodoro::pomosession::{long_break_due, round_after};
use crate::stopwatch::Stopwatch;
use crate::time::{clock_now, Duration};
use std::time::Instant;
use vstd::prelude::*;
use vstd::string::StringExecFns;

verus! {

/// One phase of the cycle.
#[derive(Clone, Copy, Debug, PartialEq, Eq, Structural)]
pub enum Mode {
    Work,
    Break,
    LongBreak,
}

impl Default for Mode {
    /// A cycle begins with work.
    fn default() -> (mode: Self)
        ensures
            mode == Mode::Work,
    {
        Mode::Work
    }
}

/// The target durations of the three phases.
#[derive(Copy, Clone, Debug, PartialEq, Eq, Structural)]
pub struct PomodoroConfig {
    pub work_time: Duration,
    pub break_time: Duration,
    pub long_break: Duration,
}

impl Default for PomodoroConfig {
    /// The short cycle.
    fn default() -> (config: Self)
        ensures
            config == PomodoroConfig::short_cycle(),
    {
        Self::short()
    }
}

impl PomodoroConfig {
    /// The short cycle: 25 minutes of work, breaks of 5 and 10 minutes.
    pub open spec fn short_cycle() -> PomodoroConfig {
        PomodoroConfig { work_time: minutes(25), break_time: minutes(5), long_break: minutes(10) }
    }

    /// The long cycle: 55 minutes of work, breaks of 10 and 20 minutes.
    pub open spec fn long_cycle() -> PomodoroConfig {
        PomodoroConfig { work_time: minutes(55), break_time: minutes(10), long_break: minutes(20) }
    }

    /// How long `mode` lasts.
    pub open spec fn target(self, mode: Mode) -> Duration {
        match mode {
            Mode::Work => self.work_time,
            Mode::Break => self.break_time,
            Mode::LongBreak => self.long_break,
        }
    }

    /// The cycle with the durations that `app` names in place of its own.
    pub open spec fn overridden(self, app: AppConfig) -> PomodoroConfig {
        PomodoroConfig {
            work_time: match app.work_time {
                Some(time) => time,
                None => self.work_time,
            },
            break_time: match app.short_break {
                Some(time) => time,
                None => self.break_time,
            },
            long_break: match app.long_break {
                Some(time) => time,
                None => self.long_break,
            },
        }
    }

    /// A cycle with the given durations.
    pub fn new(work_time: Duration, break_time: Duration, long_break: Duration) -> (config: Self)
        ensures
            config == (PomodoroConfig { work_time, break_time, long_break }),
    {
        Self { work_time, break_time, long_break }
    }

    /// The short cycle.
    pub fn short() -> (config: Self)
        ensures
            config == PomodoroConfig::short_cycle(),
    {
        Self {
            work_time: Duration::from_secs(25 * 60),
            break_time: Duration::from_secs(5 * 60),
            long_break: Duration::from_secs(10 * 60),
        }
    }

    /// The long cycle.
    pub fn long() -> (config: Self)
        ensures
            config == PomodoroConfig::long_cycle(),
    {
        Self {
            work_time: Duration::from_secs(55 * 60),
            break_time: Duration::from_secs(10 * 60),
            long_break: Duration::from_secs(20 * 60),
        }
    }

    /// The cycle with the durations that `app` names in place of its own.
    pub fn with_config(self, app: &AppConfig) -> (config: Self)
        ensures
            config == self.overridden(*app),
    {
        Self {
            work_time: match app.work_time {
                Some(time) => time,
                None => self.work_time,
            },
            break_time: match app.short_break {
                Some(time) => time,
                None => self.break_time,
            },
            long_break: match app.long_break {
                Some(time) => time,
                None => self.long_break,
            },
        }
    }

    /// The short cycle, with the durations that `app` names in place of its
    /// own.
    pub fn short_with_config(app: &AppConfig) -> (config: Self)
        ensures
            config == PomodoroConfig::short_cycle().overridden(*app),
    {
        Self::short().with_config(app)
    }

    /// The long cycle, with the durations that `app` names in place of its
    /// own.
    pub fn long_with_config(app: &AppConfig) -> (config: Self)
        ensures
            config == PomodoroConfig::long_cycle().overridden(*app),
    {
        Self::long().with_config(app)
    }

    /// A cycle with the given durations. What was asked for on the command
    /// line goes before what `app` names.
    pub fn new_with_config(
        work_time: Duration,
        break_time: Duration,
        long_break: Duration,
        app: &AppConfig,
    ) -> (config: Self)
        ensures
            config == (PomodoroConfig { work_time, break_time, long_break }),
    {
        Self::new(work_time, break_time, long_break)
    }

    /// How long `mode` lasts.
    pub fn current_target(&self, mode: Mode) -> (target: Duration)
        ensures
            target == self.target(mode),
    {
        match mode {
            Mode::Work => self.work_time,
            Mode::Break => self.break_time,
            Mode::LongBreak => self.long_break,
        }
    }
}

/// Where a cycle stands, and the time spent in it so far.
#[derive(Debug, Clone, Copy)]
pub struct Session {
    pub mode: Mode,
    /// The number of the current round, which starts at 1.
    pub round: u32,
    /// The time spent at work, and the time spent on breaks, in the phases
    /// that have ended.
    pub elapsed_time: [Duration; 2],
}

impl Default for Session {
    /// The work phase of round 1, with no time spent.
    fn default() -> (session: Self)
        ensures
            session == Session::first(),
    {
        Self { mode: Mode::Work, round: 1, elapsed_time: [Duration::zero(), Duration::zero()] }
    }
}

impl Session {
    /// The session a cycle begins with.
    pub open spec fn first() -> Session {
        Session {
            mode: Mode::Work,
            round: 1,
            elapsed_time: [Duration { nanos: 0 }, Duration { nanos: 0 }],
        }
    }

    /// The phase that follows the current one: after work a break, a long
    /// one in every fourth round, and after a break work.
    pub open spec fn next_mode(self) -> Mode {
        match self.mode {
            Mode::Work => if long_break_due(self.round as int) {
                Mode::LongBreak
            } else {
                Mode::Break
            },
            _ => Mode::Work,
        }
    }

    /// The session that follows this one when the current phase has taken
    /// `duration`. The time goes to the work or to the breaks; the round
    /// moves on where a break ends.
    pub open spec fn advanced(self, duration: Duration) -> Session {
        match self.mode {
            Mode::Work => Session {
                mode: self.next_mode(),
                round: self.round,
                elapsed_time: [self.elapsed_time[0].plus(duration), self.elapsed_time[1]],
            },
            _ => Session {
                mode: Mode::Work,
                round: round_after(self.round),
                elapsed_time: [self.elapsed_time[0], self.elapsed_time[1].plus(duration)],
            },
        }
    }

    /// The session that follows this one when the current phase has taken
    /// `duration`.
    pub fn advance(self, duration: Duration) -> (session: Self)
        ensures
            session == self.advanced(duration),
    {
        match self.mode {
            Mode::Work => if self.round % 4 == 0 && self.round != 0 {
                Self {
                    mode: Mode::LongBreak,
                    round: self.round,
                    elapsed_time: [
                        self.elapsed_time[0].saturating_add(duration),
                        self.elapsed_time[1],
                    ],
                }
            } else {
                Self {
                    mode: Mode::Break,
                    round: self.round,
                    elapsed_time: [
                        self.elapsed_time[0].saturating_add(duration),
                        self.elapsed_time[1],
                    ],
                }
            },
            Mode::Break | Mode::LongBreak => Self {
                mode: Mode::Work,
                round: if self.round < u32::MAX {
                    self.round + 1
                } else {
                    self.round
                },
                elapsed_time: [self.elapsed_time[0], self.elapsed_time[1].saturating_add(duration)],
            },
        }
    }

    /// The session that follows this one, with no time added.
    pub fn next(&self) -> (session: Self)
        ensures
            session == self.advanced(Duration { nanos: 0 }),
    {
        self.advance(Duration::zero())
    }
}

/// The hint shown while a phase is being counted.
pub const CONTROLS: &'static str = "[Q]: quit, [Shift S]: Skip, [Space]: pause/resume";

/// The hint shown once a phase is over.
pub const ENDING_CONTROLS: &'static str =
    "[Q]: quit, [Shift S]: Skip, [Space]: pause/resume, [Enter]: Next";

/// The hint shown with the skip prompt.
pub const SKIP_CONTROLS: &'static str = "[Enter]: Yes, [Q/N]: No";

/// The title shown while `mode` is being counted.
pub open spec fn default_title_text(mode: Mode) -> Seq<char> {
    match mode {
        Mode::Work => "Pomodoro (Work)"@,
        Mode::Break => "Pomodoro (Break)"@,
        Mode::LongBreak => "Pomodoro (Long Break)"@,
    }
}

/// The title shown once a phase is over and `next_mode` is due.
pub open spec fn end_title_text(next_mode: Mode) -> Seq<char> {
    match next_mode {
        Mode::Work => "Break has ended! Start work?"@,
        Mode::Break => "Work has ended! Start break?"@,
        Mode::LongBreak => "Work has ended! Start a long break"@,
    }
}

/// The title and the body of the alert that announces `next_mode`.
pub open spec fn alert_message_text(next_mode: Mode) -> (Seq<char>, Seq<char>) {
    match next_mode {
        Mode::Work => ("Your break ended!"@, "Time for some work"@),
        Mode::Break => ("Pomodoro ended!"@, "Time for a short break"@),
        Mode::LongBreak => ("Pomodoro 4 sessions complete!"@, "Time for a long break"@),
    }
}

/// The question of the skip prompt when `next_mode` is due, and its colour.
pub open spec fn skip_question(next_mode: Mode) -> LineView {
    match next_mode {
        Mode::Work => ("skip to work?"@, Some(Color::Red)),
        Mode::Break => ("skip to break?"@, Some(Color::Green)),
        Mode::LongBreak => ("skip to long break?"@, Some(Color::Green)),
    }
}

/// The title shown while `mode` is being counted.
pub fn default_title(mode: Mode) -> (title: &'static str)
    ensures
        title@ == default_title_text(mode),
{
    match mode {
        Mode::Work => "Pomodoro (Work)",
        Mode::Break => "Pomodoro (Break)",
        Mode::LongBreak => "Pomodoro (Long Break)",
    }
}

/// The title shown once a phase is over and `next_mode` is due.
pub fn end_title(next_mode: Mode) -> (title: &'static str)
    ensures
        title@ == end_title_text(next_mode),
{
    match next_mode {
        Mode::Work => "Break has ended! Start work?",
        Mode::Break => "Work has ended! Start break?",
        Mode::LongBreak => "Work has ended! Start a long break",
    }
}

/// The title and the body of the alert that announces `next_mode`.
pub fn alert_message(next_mode: Mode) -> (text: (&'static str, &'static str))
    ensures
        (text.0@, text.1@) == alert_message_text(next_mode),
{
    match next_mode {
        Mode::Work => ("Your break ended!", "Time for some work"),
        Mode::Break => ("Pomodoro ended!", "Time for a short break"),
        Mode::LongBreak => ("Pomodoro 4 sessions complete!", "Time for a long break"),
    }
}

/// What the pomodoro is doing: counting, or waiting for the answer to
/// "skip this phase?".
#[derive(Debug, Clone, Copy)]
pub enum UIMode {
    /// The prompt is open, with what the stopwatch showed when it was
    /// opened.
    Skip(Duration),
    /// The phase is being counted.
    Running(Stopwatch),
}

impl Default for UIMode {
    /// Counting from zero, from now.
    fn default() -> (mode: Self)
        ensures
            mode matches UIMode::Running(watch) && watch.start_time.is_some()
                && watch.elapsed_before.nanos == 0,
    {
        Self::Running(Stopwatch::default())
    }
}

/// A pomodoro that is run in place.
#[derive(Debug, Clone, Copy)]
pub struct PomodoroUI {
    pub config: PomodoroConfig,
    pub session: Session,
    pub ui_mode: UIMode,
    pub alerter: Alerter,
}

impl Default for PomodoroUI {
    /// The short cycle, at the start of its first work phase.
    fn default() -> (ui: Self)
        ensures
            ui.config == PomodoroConfig::short_cycle(),
            ui.session == Session::first(),
            !ui.alerter.0,
            ui.ui_mode matches UIMode::Running(watch) && watch.start_time.is_some()
                && watch.elapsed_before.nanos == 0,
    {
        Self {
            config: PomodoroConfig::default(),
            session: Session::default(),
            ui_mode: UIMode::default(),
            alerter: Alerter::default(),
        }
    }
}

/// The text shown when a pomodoro is left, with the time spent at work and
/// on breaks.
pub open spec fn farewell_text(session: Session) -> Seq<char> {
    "You have spent "@ + duration_text(session.elapsed_time[0]) + " working and "@ + duration_text(
        session.elapsed_time[1],
    ) + " on break. Well done!"@
}

impl PomodoroUI {
    /// The target of the current phase.
    pub open spec fn goal(self) -> Duration {
        self.config.target(self.session.mode)
    }

    /// The elapsed time of the current phase when the stopwatch's current
    /// interval has lasted `live`; while the prompt is open, the time that
    /// was frozen when it opened.
    pub open spec fn reading(self, live: Duration) -> Duration {
        match self.ui_mode {
            UIMode::Running(watch) => watch.reading(live),
            UIMode::Skip(elapsed) => elapsed,
        }
    }

    /// The pomodoro with `ui_mode` in place of its mode.
    pub open spec fn with_mode(self, ui_mode: UIMode) -> PomodoroUI {
        PomodoroUI { config: self.config, session: self.session, ui_mode, alerter: self.alerter }
    }

    /// The pomodoro at the start of the next phase, begun at `now`, when
    /// the phase that ends has taken `elapsed`.
    pub open spec fn advanced(self, elapsed: Duration, now: Instant) -> PomodoroUI {
        PomodoroUI {
            config: self.config,
            session: self.session.advanced(elapsed),
            ui_mode: UIMode::Running(
                Stopwatch { start_time: Some(now), elapsed_before: Duration { nanos: 0 } },
            ),
            alerter: Alerter(false),
        }
    }

    /// Whether `command` moves the pomodoro on to the next phase.
    pub open spec fn advances(self, command: Command, live: Duration) -> bool {
        match self.ui_mode {
            UIMode::Skip(_) => command == Command::Enter || command == Command::Yes,
            UIMode::Running(_) => command == Command::Enter && self.reading(live).nanos
                >= self.goal().nanos,
        }
    }

    /// The pomodoro after `command`, given at the instant `now` at which the
    /// stopwatch's current interval had lasted `live`. A command that has
    /// no meaning in the current mode changes nothing.
    pub open spec fn after(self, command: Command, now: Instant, live: Duration) -> PomodoroUI {
        match self.ui_mode {
            UIMode::Skip(elapsed) => match command {
                Command::Quit | Command::No => self.with_mode(
                    UIMode::Running(Stopwatch { start_time: Some(now), elapsed_before: elapsed }),
                ),
                Command::Enter | Command::Yes => self.advanced(elapsed, now),
                _ => self,
            },
            UIMode::Running(watch) => match command {
                Command::Enter => if self.reading(live).nanos >= self.goal().nanos {
                    self.advanced(self.reading(live), now)
                } else {
                    self
                },
                Command::Pause => self.with_mode(
                    UIMode::Running(Stopwatch::of(watch.counter().halted(live))),
                ),
                Command::Resume => self.with_mode(
                    UIMode::Running(Stopwatch::of(watch.counter().resumed(now))),
                ),
                Command::Toggle => self.with_mode(
                    UIMode::Running(Stopwatch::of(watch.counter().flipped(now, live))),
                ),
                Command::Skip => self.with_mode(UIMode::Skip(watch.reading(live))),
                _ => self,
            },
        }
    }

    /// The pomodoro when it is left: the time of the phase that is cut
    /// short is added to the time spent.
    pub open spec fn finished(self, live: Duration) -> PomodoroUI {
        PomodoroUI {
            config: self.config,
            session: self.session.advanced(self.reading(live)),
            ui_mode: self.ui_mode,
            alerter: self.alerter,
        }
    }

    /// The lines shown at that reading.
    pub open spec fn picture(self, live: Duration) -> Seq<LineView> {
        let round = (numbered("Session: "@, self.session.round as nat), None::<Color>);
        match self.ui_mode {
            UIMode::Skip(_) => seq![
                skip_question(self.session.next_mode()),
                round,
                (SKIP_CONTROLS@, None),
            ],
            UIMode::Running(watch) => if self.reading(live).nanos < self.goal().nanos {
                seq![
                    (default_title_text(self.session.mode), None),
                    (
                        duration_text(self.goal().minus(self.reading(live))),
                        tint(watch.start_time.is_some()),
                    ),
                    (CONTROLS@, None),
                    round,
                ]
            } else {
                seq![
                    (end_title_text(self.session.next_mode()), None),
                    (
                        "+"@ + duration_text(self.reading(live).minus(self.goal())),
                        tint(watch.start_time.is_some()),
                    ),
                    (ENDING_CONTROLS@, None),
                    round,
                    (alert_message_text(self.session.next_mode()).1, None),
                ]
            },
        }
    }

    /// Whether showing the pomodoro at that reading announces the end of
    /// the phase: it is being counted, the target is reached, and nothing
    /// was announced yet.
    pub open spec fn announces(self, live: Duration) -> bool {
        self.ui_mode is Running && self.reading(live).nanos >= self.goal().nanos && !self.alerter.0
    }

    /// The pomodoro after it was shown at that reading: the latch is closed
    /// once the end of the phase was on the screen.
    pub open spec fn seen(self, live: Duration) -> PomodoroUI {
        PomodoroUI {
            config: self.config,
            session: self.session,
            ui_mode: self.ui_mode,
            alerter: Alerter(
                self.alerter.0 || (self.ui_mode is Running && self.reading(live).nanos
                    >= self.goal().nanos),
            ),
        }
    }

    /// The pomodoro of `config`, at the start of its first work phase.
    pub fn new(config: PomodoroConfig) -> (ui: Self)
        ensures
            ui.config == config,
            ui.session == Session::first(),
            !ui.alerter.0,
            ui.ui_mode matches UIMode::Running(watch) && watch.start_time.is_some()
                && watch.elapsed_before.nanos == 0,
    {
        Self {
            config,
            session: Session::default(),
            ui_mode: UIMode::default(),
            alerter: Alerter::default(),
        }
    }

    /// How long the stopwatch's current interval has lasted by the clock;
    /// the empty span while the prompt is open.
    pub fn live(&self) -> (live: Duration)
        ensures
            !self.counting() ==> live.nanos == 0,
    {
        match self.ui_mode {
            UIMode::Running(watch) => watch.live(),
            UIMode::Skip(_) => Duration::zero(),
        }
    }

    /// Whether time is passing for the pomodoro: the phase is being counted
    /// and its stopwatch runs.
    pub open spec fn counting(self) -> bool {
        self.ui_mode matches UIMode::Running(watch) && watch.start_time.is_some()
    }

    /// Takes a command given at the instant `now` at which the stopwatch's
    /// current interval had lasted `live`.
    pub fn update_with(&mut self, command: Command, now: Instant, live: Duration)
        ensures
            *final(self) == old(self).after(command, now, live),
    {
        let config = self.config;
        pomodoro_update_with(
            command,
            &config,
            &mut self.alerter,
            &mut self.ui_mode,
            &mut self.session,
            now,
            live,
        );
    }

    /// Takes a command, by the clock.
    pub fn update(&mut self, command: Command)
        ensures
            exists|now: Instant, live: Duration| *final(self) == old(self).after(command, now, live),
    {
        let live = self.live();
        let now = clock_now();
        self.update_with(command, now, live);
    }

    /// The frame to show when the stopwatch's current interval has lasted
    /// `live`, and the alert to send with it, if one is due.
    pub fn show_with(&mut self, live: Duration) -> (shown: (Frame, Option<(String, String)>))
        ensures
            *final(self) == old(self).seen(live),
            shown.0.shown() == old(self).picture(live),
            shown.1.is_some() == old(self).announces(live),
            shown.1 matches Some(text) ==> (text.0@, text.1@) == alert_message_text(
                old(self).session.next_mode(),
            ),
    {
        let config = self.config;
        let ui_mode = self.ui_mode;
        let session = self.session;
        let (frame, notice) = pomodoro_show(&config, &ui_mode, &session, &mut self.alerter, live);
        let notice = match notice {
            Some((title, message)) => Some((String::from_str(title), String::from_str(message))),
            None => None,
        };
        (frame, notice)
    }

    /// The frame to show by the clock, and the alert to send with it, if
    /// one is due.
    pub fn show(&mut self) -> (shown: (Frame, Option<(String, String)>))
        ensures
            exists|live: Duration|
                *final(self) == old(self).seen(live) && shown.0.shown() == old(self).picture(live)
                    && shown.1.is_some() == old(self).announces(live),
            shown.1 matches Some(text) ==> (text.0@, text.1@) == alert_message_text(
                old(self).session.next_mode(),
            ),
    {
        let live = self.live();
        self.show_with(live)
    }

    /// Leaves the pomodoro when the stopwatch's current interval has
    /// lasted `live`: the phase that is cut short is added to the time
    /// spent, and the farewell says how much that is.
    pub fn finish_with(&mut self, live: Duration) -> (farewell: String)
        ensures
            *final(self) == old(self).finished(live),
            farewell@ == farewell_text(final(self).session),
    {
        self.session = match self.ui_mode {
            UIMode::Skip(elapsed) => self.session.advance(elapsed),
            UIMode::Running(stopwatch) => self.session.advance(stopwatch.elapsed_after(live)),
        };
        let worked = format_duration(self.session.elapsed_time[0]);
        let rested = format_duration(self.session.elapsed_time[1]);
        let mut farewell = String::from_str("You have spent ");
        farewell.append(worked.as_str());
        farewell.append(" working and ");
        farewell.append(rested.as_str());
        farewell.append(" on break. Well done!");
        assert(farewell@ =~= farewell_text(self.session));
        farewell
    }

    /// Leaves the pomodoro, by the clock.
    pub fn finish(&mut self) -> (farewell: String)
        ensures
            exists|live: Duration|
                *final(self) == old(self).finished(live) && farewell@ == farewell_text(
                    old(self).finished(live).session,
                ),
    {
        let live = self.live();
        self.finish_with(live)
    }
}

/// Takes a command given at the instant `now` at which the stopwatch's
/// current interval had lasted `live`.
pub fn pomodoro_update_with(
    command: Command,
    config: &PomodoroConfig,
    alerter: &mut Alerter,
    ui_mode: &mut UIMode,
    session: &mut Session,
    now: Instant,
    live: Duration,
)
    ensures
        (PomodoroUI {
            config: *config,
            session: *final(session),
            ui_mode: *final(ui_mode),
            alerter: *final(alerter),
        }) == (PomodoroUI {
            config: *config,
            session: *old(session),
            ui_mode: *old(ui_mode),
            alerter: *old(alerter),
        }).after(command, now, live),
{
    match *ui_mode {
        UIMode::Skip(elapsed) => match command {
            Command::Quit | Command::No => {
                *ui_mode = UIMode::Running(Stopwatch::new(Some(now), elapsed));
            },
            Command::Enter | Command::Yes => {
                alerter.reset();
                *session = session.advance(elapsed);
                *ui_mode = UIMode::Running(Stopwatch::new(Some(now), Duration::zero()));
            },
            _ => (),
        },
        UIMode::Running(watch) => {
            let mut stopwatch = watch;
            let elapsed = stopwatch.elapsed_after(live);
            let target = config.current_target(session.mode);

            match command {
                Command::Enter => {
                    if elapsed.nanos >= target.nanos {
                        alerter.reset();
                        *session = session.advance(elapsed);
                        *ui_mode = UIMode::Running(Stopwatch::new(Some(now), Duration::zero()));
                    }
                },
                Command::Pause => {
                    stopwatch.stop_after(live);
                    *ui_mode = UIMode::Running(stopwatch);
                },
                Command::Resume => {
                    stopwatch.start_at(now);
                    *ui_mode = UIMode::Running(stopwatch);
                },
                Command::Toggle => {
                    stopwatch.toggle_with(now, live);
                    *ui_mode = UIMode::Running(stopwatch);
                },
                Command::Skip => {
                    *ui_mode = UIMode::Skip(elapsed);
                },
                _ => (),
            }
        },
    }
}

/// Takes a command, by the clock.
pub fn pomodoro_update(
    command: Command,
    config: &PomodoroConfig,
    alerter: &mut Alerter,
    ui_mode: &mut UIMode,
    session: &mut Session,
)
    ensures
        exists|now: Instant, live: Duration|
            (PomodoroUI {
                config: *config,
                session: *final(session),
                ui_mode: *final(ui_mode),
                alerter: *final(alerter),
            }) == (PomodoroUI {
                config: *config,
                session: *old(session),
                ui_mode: *old(ui_mode),
                alerter: *old(alerter),
            }).after(command, now, live),
{
    let live = match *ui_mode {
        UIMode::Running(watch) => watch.live(),
        UIMode::Skip(_) => Duration::zero(),
    };
    let now = clock_now();
    pomodoro_update_with(command, config, alerter, ui_mode, session, now, live);
}

/// The frame to show when the stopwatch's current interval has lasted
/// `live`, and the alert to send with it: once the phase is over, the first
/// frame that says so comes with the alert that announces the next phase.
pub fn pomodoro_show(
    config: &PomodoroConfig,
    ui_mode: &UIMode,
    session: &Session,
    alerter: &mut Alerter,
    live: Duration,
) -> (shown: (Frame, Option<(&'static str, &'static str)>))
    ensures
        (PomodoroUI {
            config: *config,
            session: *session,
            ui_mode: *ui_mode,
            alerter: *final(alerter),
        }) == (PomodoroUI {
            config: *config,
            session: *session,
            ui_mode: *ui_mode,
            alerter: *old(alerter),
        }).seen(live),
        shown.0.shown() == (PomodoroUI {
            config: *config,
            session: *session,
            ui_mode: *ui_mode,
            alerter: *old(alerter),
        }).picture(live),
        shown.1.is_some() == (PomodoroUI {
            config: *config,
            session: *session,
            ui_mode: *ui_mode,
            alerter: *old(alerter),
        }).announces(live),
        shown.1 matches Some(text) ==> (text.0@, text.1@) == alert_message_text(
            session.next_mode(),
        ),
{
    let target = config.current_target(session.mode);
    let round_number = label_number("Session: ", session.round as u128);
    let mut frame = Frame::new();
    let mut notice: Option<(&'static str, &'static str)> = None;
    let ghost ui = PomodoroUI {
        config: *config,
        session: *session,
        ui_mode: *ui_mode,
        alerter: *old(alerter),
    };
    match *ui_mode {
        UIMode::Skip(_) => {
            let (color, skip_to) = match session.next().mode {
                Mode::Work => (Color::Red, "skip to work?"),
                Mode::Break => (Color::Green, "skip to break?"),
                Mode::LongBreak => (Color::Green, "skip to long break?"),
            };
            frame.line(String::from_str(skip_to), Some(color));
            frame.line(round_number, None);
            frame.plain(SKIP_CONTROLS);
            assert(frame.shown() =~= ui.picture(live));
        },
        UIMode::Running(stopwatch) => {
            let elapsed = stopwatch.elapsed_after(live);
            if elapsed.nanos < target.nanos {
                let time_left = target.saturating_sub(elapsed);
                frame.plain(default_title(session.mode));
                frame.line(format_duration(time_left), Some(running_color(stopwatch.started())));
                frame.plain(CONTROLS);
                frame.line(round_number, None);
                assert(frame.shown() =~= ui.picture(live));
            } else {
                let excess_time = elapsed.saturating_sub(target);
                let (title, message) = alert_message(session.next().mode);
                notice = alerter.alert_once(title, message);
                frame.plain(end_title(session.next().mode));
                frame.line(
                    prefixed("+", format_duration(excess_time).as_str()),
                    Some(running_color(stopwatch.started())),
                );
                frame.plain(ENDING_CONTROLS);
                frame.line(round_number, None);
                frame.plain(message);
                assert(frame.shown() =~= ui.picture(live));
            }
        },
    }
    (frame, notice)
}

/// Skipping and then answering no loses and gains no time: the stopwatch
/// that `No` puts back shows, at that moment, what was frozen by `Skip`, and
/// session and latch are as before. The time spent in the prompt is not
/// counted.
pub proof fn law_skip_cancelled(
    ui: PomodoroUI,
    skipped_at: Instant,
    live: Duration,
    answered_at: Instant,
    ignored: Duration,
)
    requires
        ui.ui_mode is Running,
    ensures
        ui.after(Command::Skip, skipped_at, live).ui_mode == UIMode::Skip(ui.reading(live)),
        forall|waited: Duration|
            ui.after(Command::Skip, skipped_at, live).reading(waited) == ui.reading(live),
        ui.after(Command::Skip, skipped_at, live).after(Command::No, answered_at, ignored).reading(
            Duration { nanos: 0 },
        ) == ui.reading(live),
        ui.after(Command::Skip, skipped_at, live).after(
            Command::No,
            answered_at,
            ignored,
        ).ui_mode is Running,
        ui.after(Command::Skip, skipped_at, live).after(Command::No, answered_at, ignored).session
            == ui.session,
        ui.after(Command::Skip, skipped_at, live).after(Command::No, answered_at, ignored).alerter
            == ui.alerter,
{
}

/// Showing the pomodoro twice in one phase announces its end at most once:
/// a frame that comes after a frame that announced it, or after any frame
/// that found the phase over, announces nothing, however much later it
/// comes. Only a command that moves on to the next phase opens the latch
/// again.
pub proof fn law_announced_once(
    ui: PomodoroUI,
    first: Duration,
    second: Duration,
    command: Command,
    now: Instant,
    live: Duration,
)
    ensures
        ui.announces(first) ==> !ui.seen(first).announces(second),
        ui.alerter.0 ==> !ui.announces(first) && ui.seen(first).alerter.0,
        ui.alerter.0 && !ui.advances(command, live) ==> ui.after(command, now, live).alerter.0,
        ui.advances(command, live) ==> !ui.after(command, now, live).alerter.0 && ui.after(
            command,
            now,
            live,
        ).session == ui.session.advanced(ui.reading(live)),
        !ui.advances(command, live) ==> ui.after(command, now, live).session == ui.session
            && ui.after(command, now, live).alerter == ui.alerter,
{
}

/// One thing that happens to a pomodoro while it runs.
pub enum Happening {
    /// The pomodoro is shown when the stopwatch's current interval has
    /// lasted this long.
    Show(Duration),
    /// The user gives a command at this instant, when the stopwatch's
    /// current interval has lasted this long.
    Input(Command, Instant, Duration),
}

/// The pomodoro after the happenings of `trace`, in order.
pub open spec fn run(ui: PomodoroUI, trace: Seq<Happening>) -> PomodoroUI
    decreases trace.len(),
{
    if trace.len() == 0 {
        ui
    } else {
        let before = run(ui, trace.drop_last());
        match trace.last() {
            Happening::Show(live) => before.seen(live),
            Happening::Input(command, now, live) => before.after(command, now, live),
        }
    }
}

/// How many alerts are sent over the happenings of `trace`.
pub open spec fn alerts_sent(ui: PomodoroUI, trace: Seq<Happening>) -> nat
    decreases trace.len(),
{
    if trace.len() == 0 {
        0
    } else {
        let before = run(ui, trace.drop_last());
        let sent = alerts_sent(ui, trace.drop_last());
        match trace.last() {
            Happening::Show(live) => if before.announces(live) {
                sent + 1
            } else {
                sent
            },
            Happening::Input(..) => sent,
        }
    }
}

/// How many times the pomodoro moves on to the next phase over the
/// happenings of `trace`.
pub open spec fn phases_begun(ui: PomodoroUI, trace: Seq<Happening>) -> nat
    decreases trace.len(),
{
    if trace.len() == 0 {
        0
    } else {
        let before = run(ui, trace.drop_last());
        let begun = phases_begun(ui, trace.drop_last());
        match trace.last() {
            Happening::Show(_) => begun,
            Happening::Input(command, _, live) => if before.advances(command, live) {
                begun + 1
            } else {
                begun
            },
        }
    }
}

/// The latch as a number: 1 when closed, 0 when open.
pub open spec fn latched(ui: PomodoroUI) -> int {
    if ui.alerter.0 {
        1
    } else {
        0
    }
}

/// The end of a phase is announced at most once, however often the
/// pomodoro is shown: over any run of frames and commands there are never
/// more alerts than phases begun, plus one for the phase the run started in
/// if its latch was open. While the pomodoro stays in one phase, the alerts
/// sent are exactly those that closed the latch: one or none.
pub proof fn law_one_alert_per_phase(ui: PomodoroUI, trace: Seq<Happening>)
    ensures
        alerts_sent(ui, trace) + latched(ui) <= phases_begun(ui, trace) + latched(run(ui, trace)),
        alerts_sent(ui, trace) + latched(ui) <= phases_begun(ui, trace) + 1,
        phases_begun(ui, trace) == 0 ==> alerts_sent(ui, trace) + latched(ui) == latched(
            run(ui, trace),
        ),
        phases_begun(ui, trace) == 0 ==> run(ui, trace).session == ui.session,
        phases_begun(ui, trace) == 0 && !ui.alerter.0 ==> alerts_sent(ui, trace) <= 1,
    decreases trace.len(),
{
    if trace.len() > 0 {
        law_one_alert_per_phase(ui, trace.drop_last());
    }
}

/// Elapsed time is credited to the right side when a phase ends: work adds
/// to the time at work, either break to the time on breaks, and the other
/// side stays.
pub proof fn law_time_credited(session: Session, duration: Duration)
    ensures
        session.mode is Work ==> session.advanced(duration).elapsed_time[0]
            == session.elapsed_time[0].plus(duration) && session.advanced(
            duration,
        ).elapsed_time[1] == session.elapsed_time[1],
        !(session.mode is Work) ==> session.advanced(duration).elapsed_time[1]
            == session.elapsed_time[1].plus(duration) && session.advanced(
            duration,
        ).elapsed_time[0] == session.elapsed_time[0],
        session.mode is Work ==> session.advanced(duration).round == session.round,
        !(session.mode is Work) && session.round < u32::MAX ==> session.advanced(duration).round
            == session.round + 1,
{
}

} // verus!
