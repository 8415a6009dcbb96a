//! The pomodoro state machine: a counter that runs towards the target of the
//! current phase, a prompt that asks before a phase is skipped, and the latch
//! that lets the end of a phase be announced once.

use super::pomoconfig::PomoConfig;
use super::pomomode::PomodoroMode;
use super::pomosession::PomodoroSession;
use crate::counter::{relate, time_relation, Counter, DoubleEndedDuration};
use crate::display::{label_number, numbered, prefixed, running_color, tint, Color, Frame, LineView};
use crate::format::{duration_text, format_duration};
use crate::input::Command;
use crate::time::{clock_now, Duration};
use std::time::Instant;
use vstd::prelude::*;
use vstd::string::StringExecFns;

verus! {

/// What the machine is doing: counting, or waiting for the answer to
/// "skip this phase?".
#[derive(Debug, Clone, Copy)]
pub enum PomoStateMode {
    /// The prompt is open; `elapsed` is what the counter showed when it was
    /// opened.
    Skip { elapsed: Duration },
    /// The phase is being counted.
    Running { counter: Counter },
}

/// The state of a pomodoro.
#[derive(Debug, Clone, Copy)]
pub struct PomoState {
    pub mode: PomoStateMode,
    pub session: PomodoroSession,
    pub config: PomoConfig,
    /// Whether the end of the current phase has been announced.
    pub alert: bool,
}

impl Default for PomoStateMode {
    /// Counting from zero, from now.
    fn default() -> (mode: Self)
        ensures
            mode matches PomoStateMode::Running { counter } && counter.running()
                && counter.elapsed.nanos == 0,
    {
        let counter = Counter::default().start();
        PomoStateMode::Running { counter }
    }
}

impl Default for PomoState {
    /// The short cycle, at the start of its first work phase.
    fn default() -> (state: Self)
        ensures
            state.config == PomoConfig::short_cycle(),
            state.session == PomodoroSession::first(),
            !state.alert,
            state.mode matches PomoStateMode::Running { counter } && counter.running()
                && counter.elapsed.nanos == 0,
    {
        PomoState {
            mode: PomoStateMode::default(),
            session: PomodoroSession::default(),
            config: PomoConfig::default(),
            alert: false,
        }
    }
}

impl From<PomoConfig> for PomoState {
    /// The cycle of `config`, at the start of its first work phase.
    fn from(config: PomoConfig) -> (state: Self)
        ensures
            state.config == config,
            state.session == PomodoroSession::first(),
            !state.alert,
            state.mode matches PomoStateMode::Running { counter } && counter.running()
                && counter.elapsed.nanos == 0,
    {
        PomoState {
            mode: PomoStateMode::default(),
            session: PomodoroSession::default(),
            config,
            alert: false,
        }
    }
}

/// The counter of a new state starts at the instant of the call, so the
/// state is no function of the configuration alone.
impl vstd::std_specs::convert::FromSpecImpl<PomoConfig> for PomoState {
    open spec fn obeys_from_spec() -> bool {
        false
    }

    open spec fn from_spec(config: PomoConfig) -> PomoState {
        PomoState {
            mode: PomoStateMode::Skip { elapsed: Duration { nanos: 0 } },
            session: PomodoroSession::first(),
            config,
            alert: false,
        }
    }
}

/// The title shown while `mode` is being counted.
pub open spec fn title_text(mode: PomodoroMode) -> Seq<char> {
    match mode {
        PomodoroMode::Work => "Pomodoro (Work)"@,
        PomodoroMode::Break => "Pomodoro (Break)"@,
        PomodoroMode::LongBreak => "Pomodoro (Long Break)"@,
    }
}

/// The title shown once a phase is over and `next_mode` is due.
pub open spec fn break_title_text(next_mode: PomodoroMode) -> Seq<char> {
    match next_mode {
        PomodoroMode::Work => "Break has ended! Start work?"@,
        PomodoroMode::Break => "Work has ended! Start break?"@,
        PomodoroMode::LongBreak => "Work has ended! Start a long break"@,
    }
}

/// The title and the body of the alert that announces `next_mode`.
pub open spec fn alert_text(next_mode: PomodoroMode) -> (Seq<char>, Seq<char>) {
    match next_mode {
        PomodoroMode::Work => ("Your break ended!"@, "Time for some work"@),
        PomodoroMode::Break => ("Pomodoro ended!"@, "Time for a short break"@),
        PomodoroMode::LongBreak => ("Pomodoro 4 sessions complete!"@, "Time for a long break"@),
    }
}

/// The question of the skip prompt when `next_mode` is due, and its colour.
pub open spec fn skip_prompt_text(next_mode: PomodoroMode) -> LineView {
    match next_mode {
        PomodoroMode::Work => ("skip to work?"@, Some(Color::Red)),
        PomodoroMode::Break => ("skip to break?"@, Some(Color::Green)),
        PomodoroMode::LongBreak => ("skip to long break?"@, Some(Color::Green)),
    }
}

impl PomoState {
    /// The hint shown while a phase is being counted.
    pub const CONTROLS: &'static str = "[Q]: quit, [Shift S]: Skip, [Space]: pause/resume";

    /// The hint shown once a phase is over.
    pub const ENDING_CONTROLS: &'static str =
        "[Q]: quit, [Shift S]: Skip, [Space]: pause/resume, [Enter]: Next";

    /// The hint shown with the skip prompt.
    pub const SKIP_CONTROLS: &'static str = "[Enter]: Yes, [Q/N]: No";

    /// The title shown while `mode` is being counted.
    pub fn title(mode: PomodoroMode) -> (text: &'static str)
        ensures
            text@ == title_text(mode),
    {
        match mode {
            PomodoroMode::Work => "Pomodoro (Work)",
            PomodoroMode::Break => "Pomodoro (Break)",
            PomodoroMode::LongBreak => "Pomodoro (Long Break)",
        }
    }

    /// The title shown once a phase is over and `next_mode` is due.
    pub fn break_title(next_mode: PomodoroMode) -> (text: &'static str)
        ensures
            text@ == break_title_text(next_mode),
    {
        match next_mode {
            PomodoroMode::Work => "Break has ended! Start work?",
            PomodoroMode::Break => "Work has ended! Start break?",
            PomodoroMode::LongBreak => "Work has ended! Start a long break",
        }
    }

    /// The title and the body of the alert that announces `next_mode`.
    pub fn pomodoro_alert_message(next_mode: PomodoroMode) -> (text: (&'static str, &'static str))
        ensures
            (text.0@, text.1@) == alert_text(next_mode),
    {
        match next_mode {
            PomodoroMode::Work => ("Your break ended!", "Time for some work"),
            PomodoroMode::Break => ("Pomodoro ended!", "Time for a short break"),
            PomodoroMode::LongBreak => ("Pomodoro 4 sessions complete!", "Time for a long break"),
        }
    }

    /// The target of the current phase.
    pub open spec fn goal(self) -> Duration {
        self.session.mode.target(self.config)
    }

    /// The elapsed time of the current phase when the counter's current
    /// interval has lasted `live`. While the prompt is open it is the time
    /// that was frozen when the prompt opened.
    pub open spec fn reading(self, live: Duration) -> Duration {
        match self.mode {
            PomoStateMode::Running { counter } => counter.reading(live),
            PomoStateMode::Skip { elapsed } => elapsed,
        }
    }

    /// Whether the phase has reached its target at that reading.
    pub open spec fn over_time(self, live: Duration) -> bool {
        self.reading(live).nanos >= self.goal().nanos
    }

    /// The state at the start of the next phase, begun at `now`: the
    /// session moves on, a fresh counter runs from zero and the latch is
    /// open again.
    pub open spec fn advanced(self, now: Instant) -> PomoState {
        PomoState {
            mode: PomoStateMode::Running {
                counter: Counter { start: Some(now), elapsed: Duration { nanos: 0 } },
            },
            session: self.session.successor(),
            config: self.config,
            alert: false,
        }
    }

    /// The state with `mode` in place of its mode.
    pub open spec fn with_mode(self, mode: PomoStateMode) -> PomoState {
        PomoState { mode, session: self.session, config: self.config, alert: self.alert }
    }

    /// Whether `command` moves the machine on to the next phase: a
    /// confirmation of the skip prompt does, and so does enter once the
    /// phase is over.
    pub open spec fn advances(self, command: Command, live: Duration) -> bool {
        match self.mode {
            PomoStateMode::Skip { .. } => command == Command::Enter || command == Command::Yes,
            PomoStateMode::Running { .. } => command == Command::Enter && self.over_time(live),
        }
    }

    /// The state after `command`, given at the instant `now` at which the
    /// counter's current interval had lasted `live`; `None` where the
    /// command ends the pomodoro. A command that has no meaning in the
    /// current mode leaves the state as it is.
    pub open spec fn after(self, command: Command, now: Instant, live: Duration) -> Option<
        PomoState,
    > {
        match self.mode {
            PomoStateMode::Skip { elapsed } => match command {
                Command::Quit | Command::No => Some(
                    self.with_mode(
                        PomoStateMode::Running { counter: Counter { start: Some(now), elapsed } },
                    ),
                ),
                Command::Enter | Command::Yes => Some(self.advanced(now)),
                _ => Some(self),
            },
            PomoStateMode::Running { counter } => match command {
                Command::Quit => None,
                Command::Enter => if self.over_time(live) {
                    Some(self.advanced(now))
                } else {
                    Some(self)
                },
                Command::Pause => Some(
                    self.with_mode(PomoStateMode::Running { counter: counter.halted(live) }),
                ),
                Command::Resume => Some(
                    self.with_mode(PomoStateMode::Running { counter: counter.resumed(now) }),
                ),
                Command::Toggle => Some(
                    self.with_mode(PomoStateMode::Running { counter: counter.flipped(now, live) }),
                ),
                Command::Skip => Some(
                    self.with_mode(PomoStateMode::Skip { elapsed: counter.reading(live) }),
                ),
                _ => Some(self),
            },
        }
    }

    /// How long the counter's current interval has lasted by the clock; the
    /// empty span while the prompt is open.
    pub fn live(&self) -> (live: Duration)
        ensures
            !self.counting() ==> live.nanos == 0,
    {
        match self.mode {
            PomoStateMode::Running { counter } => counter.live(),
            PomoStateMode::Skip { .. } => Duration::zero(),
        }
    }

    /// Whether time is passing for the state: the phase is being counted
    /// and its counter runs.
    pub open spec fn counting(self) -> bool {
        self.mode matches PomoStateMode::Running { counter } && counter.running()
    }

    /// The state after `command`, given at the instant `now` at which the
    /// counter's current interval had lasted `live`.
    pub fn handle_command_with(self, command: Command, now: Instant, live: Duration) -> (next:
        Option<Self>)
        ensures
            next == self.after(command, now, live),
    {
        match command {
            Command::Quit => match self.mode {
                PomoStateMode::Skip { elapsed } => {
                    let counter = Counter::from(elapsed).start_at(now);
                    let mode = PomoStateMode::Running { counter };
                    Some(Self { mode, ..self })
                },
                _ => None,
            },
            Command::No => match self.mode {
                PomoStateMode::Skip { elapsed } => {
                    let counter = Counter::from(elapsed).start_at(now);
                    let mode = PomoStateMode::Running { counter };
                    Some(Self { mode, ..self })
                },
                _ => Some(self),
            },
            Command::Enter => match self.mode {
                PomoStateMode::Running { counter } => {
                    let target = self.session.mode.current_target(&self.config);
                    if counter.elapsed_after(live).nanos >= target.nanos {
                        Some(self.next_phase(now))
                    } else {
                        Some(self)
                    }
                },
                PomoStateMode::Skip { .. } => Some(self.next_phase(now)),
            },
            Command::Yes => match self.mode {
                PomoStateMode::Skip { .. } => Some(self.next_phase(now)),
                _ => Some(self),
            },
            Command::Pause => match self.mode {
                PomoStateMode::Running { counter } => {
                    let counter = counter.stop_after(live);
                    let mode = PomoStateMode::Running { counter };
                    Some(Self { mode, ..self })
                },
                _ => Some(self),
            },
            Command::Resume => match self.mode {
                PomoStateMode::Running { counter } => {
                    let counter = counter.start_at(now);
                    let mode = PomoStateMode::Running { counter };
                    Some(Self { mode, ..self })
                },
                _ => Some(self),
            },
            Command::Toggle => match self.mode {
                PomoStateMode::Running { counter } => {
                    let counter = counter.toggle_with(now, live);
                    let mode = PomoStateMode::Running { counter };
                    Some(Self { mode, ..self })
                },
                _ => Some(self),
            },
            Command::Skip => match self.mode {
                PomoStateMode::Running { counter } => {
                    let elapsed = counter.elapsed_after(live);
                    let mode = PomoStateMode::Skip { elapsed };
                    Some(PomoState { mode, ..self })
                },
                _ => Some(self),
            },
            _ => Some(self),
        }
    }

    /// The state after `command`, by the clock.
    pub fn handle_command(self, command: Command) -> (next: Option<Self>)
        ensures
            exists|now: Instant, live: Duration| next == self.after(command, now, live),
    {
        let live = self.live();
        let now = clock_now();
        self.handle_command_with(command, now, live)
    }

    /// The state at the start of the next phase, begun at `now`.
    pub fn next_phase(self, now: Instant) -> (next: Self)
        ensures
            next == self.advanced(now),
    {
        let counter = Counter::from(Duration::zero()).start_at(now);
        let mode = PomoStateMode::Running { counter };
        let session = self.session.next();
        Self { mode, session, alert: false, ..self }
    }

    /// The elapsed time of the current phase when the counter's current
    /// interval has lasted `live`.
    pub fn elapsed_after(&self, live: Duration) -> (elapsed: Duration)
        ensures
            elapsed == self.reading(live),
    {
        match self.mode {
            PomoStateMode::Running { counter } => counter.elapsed_after(live),
            PomoStateMode::Skip { elapsed } => elapsed,
        }
    }

    /// The elapsed time of the current phase by the clock.
    pub fn elpased(&self) -> (elapsed: Duration)
        ensures
            exists|live: Duration| elapsed == self.reading(live),
    {
        let live = self.live();
        self.elapsed_after(live)
    }

    /// The target of the current phase.
    pub fn target(&self) -> (target: Duration)
        ensures
            target == self.goal(),
    {
        self.session.mode.current_target(&self.config)
    }

    /// Where the current phase stands against its target when the counter's
    /// current interval has lasted `live`: the time that remains, or the
    /// time beyond the target.
    pub fn time_relation_after(&self, live: Duration) -> (relation: DoubleEndedDuration)
        ensures
            relation == time_relation(self.reading(live), self.goal()),
    {
        relate(self.elapsed_after(live), self.target())
    }

    /// The lines shown at that reading: the question while the prompt is
    /// open, the time that is left while the phase is being counted, and
    /// from the target on the time beyond it, behind a plus sign.
    pub open spec fn picture(self, live: Duration) -> Seq<LineView> {
        let round = (numbered("Session: "@, self.session.number as nat), None::<Color>);
        match self.mode {
            PomoStateMode::Skip { .. } => seq![
                skip_prompt_text(self.session.successor().mode),
                round,
                (PomoState::SKIP_CONTROLS@, None),
            ],
            PomoStateMode::Running { counter } => if !self.over_time(live) {
                seq![
                    (title_text(self.session.mode), None),
                    (duration_text(self.goal().minus(self.reading(live))), tint(counter.running())),
                    (PomoState::CONTROLS@, None),
                    round,
                ]
            } else {
                seq![
                    (break_title_text(self.session.successor().mode), None),
                    (
                        "+"@ + duration_text(self.reading(live).minus(self.goal())),
                        tint(counter.running()),
                    ),
                    (PomoState::ENDING_CONTROLS@, None),
                    (alert_text(self.session.successor().mode).1, None),
                ]
            },
        }
    }

    /// The frame to show when the counter's current interval has lasted
    /// `live`.
    pub fn show_with(&self, live: Duration) -> (frame: Frame)
        ensures
            frame.shown() == self.picture(live),
    {
        let target = self.target();
        let round_number = label_number("Session: ", self.session.number as u128);
        let mut frame = Frame::new();
        match self.mode {
            PomoStateMode::Skip { .. } => {
                let (color, skip_to) = match self.session.next().mode {
                    PomodoroMode::Work => (Color::Red, "skip to work?"),
                    PomodoroMode::Break => (Color::Green, "skip to break?"),
                    PomodoroMode::LongBreak => (Color::Green, "skip to long break?"),
                };
                frame.line(String::from_str(skip_to), Some(color));
                frame.line(round_number, None);
                frame.plain(Self::SKIP_CONTROLS);
            },
            PomoStateMode::Running { counter } => {
                let elapsed = counter.elapsed_after(live);
                if elapsed.nanos < target.nanos {
                    let time_left = target.saturating_sub(elapsed);
                    frame.plain(Self::title(self.session.mode));
                    frame.line(format_duration(time_left), Some(running_color(counter.started())));
                    frame.plain(Self::CONTROLS);
                    frame.line(round_number, None);
                } else {
                    let excess_time = elapsed.saturating_sub(target);
                    let (_, message) = Self::pomodoro_alert_message(self.session.next().mode);
                    frame.plain(Self::break_title(self.session.next().mode));
                    frame.line(
                        prefixed("+", format_duration(excess_time).as_str()),
                        Some(running_color(counter.started())),
                    );
                    frame.plain(Self::ENDING_CONTROLS);
                    frame.plain(message);
                }
            },
        }
        assert(frame.shown() =~= self.picture(live));
        frame
    }

    /// The frame to show by the clock.
    pub fn show(&self) -> (frame: Frame)
        ensures
            exists|live: Duration| frame.shown() == self.picture(live),
    {
        let live = self.live();
        self.show_with(live)
    }

    /// Whether the end of the current phase has been announced.
    pub fn alerted(&self) -> (alerted: bool)
        ensures
            alerted == self.alert,
    {
        self.alert
    }

    /// Closes or opens the latch.
    pub fn set_alert(&mut self, alert: bool)
        ensures
            *final(self) == (PomoState { alert, ..*old(self) }),
    {
        self.alert = alert;
    }

    /// Whether the phase has reached its target when the counter's current
    /// interval has lasted `live`.
    pub fn should_alert_after(&self, live: Duration) -> (due: bool)
        ensures
            due == self.over_time(live),
    {
        self.elapsed_after(live).nanos >= self.target().nanos
    }

    /// Whether the phase has reached its target by the clock.
    pub fn should_alert(&self) -> (due: bool)
        ensures
            exists|live: Duration| due == self.over_time(live),
    {
        let live = self.live();
        self.should_alert_after(live)
    }

    /// Whether a look at the state at that reading announces the end of the
    /// phase: the target is reached and nothing was announced yet.
    pub open spec fn announces(self, live: Duration) -> bool {
        self.over_time(live) && !self.alert
    }

    /// The state after a look at that reading: the latch is closed once the
    /// end of the phase is announced.
    pub open spec fn polled(self, live: Duration) -> PomoState {
        PomoState { alert: self.alert || self.over_time(live), ..self }
    }

    /// Looks at the state when the counter's current interval has lasted
    /// `live`. If the phase has reached its target and this was not
    /// announced before, closes the latch and gives the title and the body
    /// of the alert to send; otherwise changes nothing and gives `None`.
    pub fn poll_alert_after(&mut self, live: Duration) -> (notice: Option<(&'static str, &'static str)>)
        ensures
            *final(self) == old(self).polled(live),
            notice.is_some() == old(self).announces(live),
            notice matches Some(text) ==> (text.0@, text.1@) == alert_text(
                old(self).session.successor().mode,
            ),
    {
        if self.should_alert_after(live) && !self.alerted() {
            self.set_alert(true);
            Some(Self::pomodoro_alert_message(self.session.next().mode))
        } else {
            None
        }
    }

    /// Looks at the state by the clock and gives the alert to send, if one
    /// is due.
    pub fn poll_alert(&mut self) -> (notice: Option<(&'static str, &'static str)>)
        ensures
            exists|live: Duration|
                *final(self) == old(self).polled(live) && notice.is_some() == old(self).announces(
                    live,
                ),
            notice matches Some(text) ==> (text.0@, text.1@) == alert_text(
                old(self).session.successor().mode,
            ),
    {
        let live = self.live();
        self.poll_alert_after(live)
    }
}

/// One thing that happens to a pomodoro while it runs.
pub enum Happening {
    /// The event loop looks whether an alert is due, when the counter's
    /// current interval has lasted this long.
    Poll(Duration),
    /// The user gives a command at this instant, when the counter's current
    /// interval has lasted this long.
    Input(Command, Instant, Duration),
}

/// The state after one happening. A command that ends the pomodoro leaves
/// the state as it was.
pub open spec fn step(s: PomoState, h: Happening) -> PomoState {
    match h {
        Happening::Poll(live) => s.polled(live),
        Happening::Input(command, now, live) => match s.after(command, now, live) {
            Some(next) => next,
            None => s,
        },
    }
}

/// The state after the happenings of `trace`, in order.
pub open spec fn run(s: PomoState, trace: Seq<Happening>) -> PomoState
    decreases trace.len(),
{
    if trace.len() == 0 {
        s
    } else {
        step(run(s, trace.drop_last()), trace.last())
    }
}

/// How many alerts are sent over the happenings of `trace`.
pub open spec fn alerts_sent(s: PomoState, trace: Seq<Happening>) -> nat
    decreases trace.len(),
{
    if trace.len() == 0 {
        0
    } else {
        let before = run(s, trace.drop_last());
        let sent = alerts_sent(s, trace.drop_last());
        match trace.last() {
            Happening::Poll(live) => if before.announces(live) {
                sent + 1
            } else {
                sent
            },
            Happening::Input(..) => sent,
        }
    }
}

/// How many times the machine moves on to the next phase over the
/// happenings of `trace`.
pub open spec fn phases_begun(s: PomoState, trace: Seq<Happening>) -> nat
    decreases trace.len(),
{
    if trace.len() == 0 {
        0
    } else {
        let before = run(s, trace.drop_last());
        let begun = phases_begun(s, trace.drop_last());
        match trace.last() {
            Happening::Poll(_) => begun,
            Happening::Input(command, _, live) => if before.advances(command, live) {
                begun + 1
            } else {
                begun
            },
        }
    }
}

/// Whether some look of `trace` finds the phase at or beyond its target.
pub open spec fn target_seen(s: PomoState, trace: Seq<Happening>) -> bool
    decreases trace.len(),
{
    if trace.len() == 0 {
        false
    } else {
        let before = run(s, trace.drop_last());
        target_seen(s, trace.drop_last()) || match trace.last() {
            Happening::Poll(live) => before.over_time(live),
            Happening::Input(..) => false,
        }
    }
}

/// The latch as a number: 1 when closed, 0 when open.
pub open spec fn latched(s: PomoState) -> int {
    if s.alert {
        1
    } else {
        0
    }
}

/// The end of a phase is announced at most once. Over any run of looks and
/// commands, there are never more alerts than phases begun, plus one for the
/// phase the run started in if its latch was open. While the machine stays
/// in one phase, an alert is sent exactly if the latch was open and some
/// look found the target reached, and then exactly once, however many looks
/// there were.
pub proof fn law_one_alert_per_phase(s: PomoState, trace: Seq<Happening>)
    ensures
        alerts_sent(s, trace) + latched(s) <= phases_begun(s, trace) + latched(run(s, trace)),
        alerts_sent(s, trace) + latched(s) <= phases_begun(s, trace) + 1,
        phases_begun(s, trace) == 0 ==> alerts_sent(s, trace) + latched(s) == latched(
            run(s, trace),
        ),
        phases_begun(s, trace) == 0 ==> run(s, trace).session == s.session,
        phases_begun(s, trace) == 0 && !s.alert ==> (alerts_sent(s, trace) == 1 <==> target_seen(
            s,
            trace,
        )),
        phases_begun(s, trace) == 0 && !s.alert ==> alerts_sent(s, trace) <= 1,
    decreases trace.len(),
{
    if trace.len() > 0 {
        law_one_alert_per_phase(s, trace.drop_last());
    }
}

/// A command changes the latch only by opening it, and opens it only when it
/// moves the machine on to the next phase.
pub proof fn law_latch_opens_on_advance(
    s: PomoState,
    command: Command,
    now: Instant,
    live: Duration,
)
    ensures
        s.after(command, now, live) matches Some(next) ==> {
            &&& s.advances(command, live) ==> !next.alert && next.session
                == s.session.successor() && next.reading(Duration { nanos: 0 }).nanos == 0
            &&& !s.advances(command, live) ==> next.alert == s.alert && next.session == s.session
        },
{
}

/// Skipping and then answering no loses and gains no time. `Skip` freezes
/// what the counter shows; `No`, whenever it comes, puts back a running
/// counter that shows the frozen time at that moment, so the time spent in
/// the prompt is not counted. Phase, round and latch are as before.
pub proof fn law_skip_cancelled(
    s: PomoState,
    skipped_at: Instant,
    live: Duration,
    answered_at: Instant,
    ignored: Duration,
)
    requires
        s.mode is Running,
    ensures
        s.after(Command::Skip, skipped_at, live) matches Some(prompt) && {
            &&& prompt.mode == (PomoStateMode::Skip { elapsed: s.reading(live) })
            &&& forall|waited: Duration| prompt.reading(waited) == s.reading(live)
            &&& prompt.after(Command::No, answered_at, ignored) matches Some(back) && {
                &&& back.mode matches PomoStateMode::Running { counter } && counter.running()
                &&& back.reading(Duration { nanos: 0 }) == s.reading(live)
                &&& back.session == s.session
                &&& back.config == s.config
                &&& back.alert == s.alert
            }
            &&& prompt.after(Command::Quit, answered_at, ignored) == prompt.after(
                Command::No,
                answered_at,
                ignored,
            )
        },
{
}

} // verus!
