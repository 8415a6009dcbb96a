//! The pomodoro, the timer and the stopwatch as they are run from single
//! keys: what each key asks for, what it does, and what is shown.

use super::counter::{Pausable, Status, TimeCount};
use super::pomodoro::{Mode, PomoMode, Pomodoro};
use super::timer::{CountType, Timer};
use crate::display::Color;
use crate::helpers::format::{clock_text, fmt_time};
use crate::text::{decimal, push_decimal};
use crate::time::{clock_now, Duration};
use std::time::Instant;
use vstd::prelude::*;
use vstd::string::StringExecFns;

verus! {

/// What a key asks for.
#[derive(Debug, Clone, Copy, PartialEq, Eq, Structural)]
pub enum Command {
    Quit,
    Space,
    Enter,
    Reset,
    Skip,
    Yes,
    No,
}

/// A key, as far as commands depend on it.
#[derive(Debug, Clone, Copy, PartialEq, Eq, Structural)]
pub enum Key {
    /// A character key.
    Char(char),
    /// A character key with control held.
    Ctrl(char),
    /// Any other key.
    Other,
}

/// The command that a key stands for, if it stands for one: `q`,
/// control-`c` and control-`z` quit, `S` skips, `y` and `n` answer,
/// control-`r` resets, and the enter key and the space bar are themselves.
pub open spec fn key_command(key: Key) -> Option<Command> {
    match key {
        Key::Char(c) => if c == 'q' {
            Some(Command::Quit)
        } else if c == 'S' {
            Some(Command::Skip)
        } else if c == 'y' {
            Some(Command::Yes)
        } else if c == 'n' {
            Some(Command::No)
        } else if c == '\n' {
            Some(Command::Enter)
        } else if c == ' ' {
            Some(Command::Space)
        } else {
            None
        },
        Key::Ctrl(c) => if c == 'c' || c == 'z' {
            Some(Command::Quit)
        } else if c == 'r' {
            Some(Command::Reset)
        } else {
            None
        },
        Key::Other => None,
    }
}

/// The command that a key stands for, if it stands for one.
pub fn listen_command(key: Key) -> (command: Option<Command>)
    ensures
        command == key_command(key),
{
    match key {
        Key::Char('q') => Some(Command::Quit),
        Key::Ctrl('c') => Some(Command::Quit),
        Key::Ctrl('z') => Some(Command::Quit),
        Key::Char('S') => Some(Command::Skip),
        Key::Char('y') => Some(Command::Yes),
        Key::Char('n') => Some(Command::No),
        Key::Ctrl('r') => Some(Command::Reset),
        Key::Char('\n') => Some(Command::Enter),
        Key::Char(' ') => Some(Command::Space),
        _ => None,
    }
}

/// The title shown while `mode` is being counted.
pub open spec fn pomo_title_text(mode: Mode) -> Seq<char> {
    match mode {
        Mode::Work => "pomodoro (work)"@,
        Mode::Rest => "pomodoro (break)"@,
        Mode::LongRest => "pomodoro (long break)"@,
    }
}

/// The title shown once `mode` is over.
pub open spec fn rest_title_text(mode: Mode) -> Seq<char> {
    match mode {
        Mode::Work => "Time for some break!"@,
        Mode::Rest => "Time to get back to work"@,
        Mode::LongRest => "Your break has ended!"@,
    }
}

/// The question of the skip prompt when `next_mode` is due, and its colour.
pub open spec fn skip_prompt_text(next_mode: Mode) -> (Seq<char>, Color) {
    match next_mode {
        Mode::Work => ("Skip to work?"@, Color::Red),
        Mode::Rest => ("Skip to break?"@, Color::Green),
        Mode::LongRest => ("Skip to a long break?"@, Color::Green),
    }
}

/// The title shown while `mode` is being counted.
pub fn get_pomo_title(mode: Mode) -> (title: &'static str)
    ensures
        title@ == pomo_title_text(mode),
{
    match mode {
        Mode::Work => "pomodoro (work)",
        Mode::Rest => "pomodoro (break)",
        Mode::LongRest => "pomodoro (long break)",
    }
}

/// The title shown once `mode` is over.
pub fn get_rest_title(mode: Mode) -> (title: &'static str)
    ensures
        title@ == rest_title_text(mode),
{
    match mode {
        Mode::Work => "Time for some break!",
        Mode::Rest => "Time to get back to work",
        Mode::LongRest => "Your break has ended!",
    }
}

/// The question of the skip prompt when `next_mode` is due, and its colour.
pub fn get_skip_prompt(next_mode: Mode) -> (prompt: (&'static str, Color))
    ensures
        (prompt.0@, prompt.1) == skip_prompt_text(next_mode),
{
    match next_mode {
        Mode::Work => ("Skip to work?", Color::Red),
        Mode::Rest => ("Skip to break?", Color::Green),
        Mode::LongRest => ("Skip to a long break?", Color::Green),
    }
}

/// The hint shown while a phase is being counted.
pub const COUNT_CONTROLS: &'static str = "[Q]: Quit, [Space]: pause/resume";

/// The hint shown once a phase is over.
pub const EXCEED_CONTROLS: &'static str = "[Q]: Quit, [Space]: pause/resume, [Enter]: next session";

/// The hint shown with the skip prompt.
pub const PROMPT_CONTROLS: &'static str = "[Q]: Quit, [Y]: Yes, [N]: No";

/// What is on the screen of a pomodoro: its title, the time, the hint, and
/// the round.
#[derive(Debug)]
pub struct Screen {
    pub title: &'static str,
    /// The time; `None` while the prompt is open.
    pub count: Option<String>,
    /// Whether the timer runs, for the colour of the time.
    pub running: bool,
    pub control: &'static str,
    pub round: String,
}

/// A pomodoro that is run from single keys, and whether it is asking if
/// the phase is to be skipped.
#[derive(Debug, Clone, Copy)]
pub struct KeyedPomodoro {
    pub counter: Pomodoro,
    /// Whether the skip prompt is open. The timer is paused while it is.
    pub prompt: bool,
}

/// The timer of `pomo` with its counter toggled.
pub open spec fn with_counter(pomo: Pomodoro, counter: TimeCount) -> Pomodoro {
    Pomodoro { counter: Timer { counter, target: pomo.counter.target }, ..pomo }
}

impl KeyedPomodoro {
    /// The pomodoro after `command`, given at the instant `now` at which
    /// the timer's current interval had lasted `live`; `None` where the
    /// command ends it.
    ///
    /// While a phase is counted, quit ends the pomodoro, skip pauses the
    /// timer and opens the prompt, enter starts the next phase once the
    /// current one is over, and enter and space pause and resume before. At
    /// the prompt, yes, enter and space start the next phase, and no and
    /// quit close the prompt and let the timer run on.
    pub open spec fn after(self, command: Command, now: Instant, live: Duration) -> Option<
        KeyedPomodoro,
    > {
        if self.prompt {
            match command {
                Command::Yes | Command::Enter | Command::Space => Some(
                    KeyedPomodoro { counter: self.counter.advanced(now), prompt: false },
                ),
                Command::No | Command::Quit => Some(
                    KeyedPomodoro {
                        counter: with_counter(
                            self.counter,
                            self.counter.counter.counter.resumed(now),
                        ),
                        prompt: false,
                    },
                ),
                _ => Some(self),
            }
        } else {
            match command {
                Command::Quit => None,
                Command::Skip => Some(
                    KeyedPomodoro {
                        counter: with_counter(
                            self.counter,
                            self.counter.counter.counter.paused(live),
                        ),
                        prompt: true,
                    },
                ),
                Command::Enter => if self.counter.counter.ended(live) {
                    Some(KeyedPomodoro { counter: self.counter.advanced(now), prompt: false })
                } else {
                    Some(
                        KeyedPomodoro {
                            counter: with_counter(
                                self.counter,
                                self.counter.counter.counter.toggled(now, live),
                            ),
                            prompt: false,
                        },
                    )
                },
                Command::Space => Some(
                    KeyedPomodoro {
                        counter: with_counter(
                            self.counter,
                            self.counter.counter.counter.toggled(now, live),
                        ),
                        prompt: false,
                    },
                ),
                _ => Some(self),
            }
        }
    }

    /// A pomodoro that begins with work now.
    pub fn new(work: Duration, rest: Duration, long_rest: Duration) -> (keyed: Self)
        ensures
            !keyed.prompt,
            keyed.counter.session == 1,
            keyed.counter.mode == Mode::Work,
            keyed.counter.counter.target == work,
    {
        Self { counter: Pomodoro::new(work, rest, long_rest), prompt: false }
    }

    /// The pomodoro after `command`, given at the instant `now` at which
    /// the timer's current interval had lasted `live`.
    pub fn pomodoro_with(self, command: Command, now: Instant, live: Duration) -> (next: Option<
        Self,
    >)
        ensures
            next == self.after(command, now, live),
    {
        let mut counter = self.counter;
        if self.prompt {
            match command {
                Command::Yes | Command::Enter | Command::Space => {
                    counter.next_mode_at(now);
                    Some(Self { counter, prompt: false })
                },
                Command::No | Command::Quit => {
                    counter.counter.counter.resume_at(now);
                    Some(Self { counter, prompt: false })
                },
                _ => Some(self),
            }
        } else {
            match command {
                Command::Quit => None,
                Command::Skip => {
                    counter.counter.counter.pause_after(live);
                    Some(Self { counter, prompt: true })
                },
                Command::Enter => {
                    if counter.counter.has_ended_after(live) {
                        counter.next_mode_at(now);
                    } else {
                        counter.counter.counter.toggle_with(now, live);
                    }
                    Some(Self { counter, prompt: false })
                },
                Command::Space => {
                    counter.counter.counter.toggle_with(now, live);
                    Some(Self { counter, prompt: false })
                },
                _ => Some(self),
            }
        }
    }

    /// The pomodoro after `command`, by the clock.
    pub fn pomodoro(self, command: Command) -> (next: Option<Self>)
        ensures
            exists|now: Instant, live: Duration| next == self.after(command, now, live),
    {
        let live = self.counter.counter.counter.live();
        let now = clock_now();
        self.pomodoro_with(command, now, live)
    }

    /// What is on the screen when the timer's current interval has lasted
    /// `live`.
    pub fn screen_with(&self, live: Duration) -> (screen: Screen)
        ensures
            screen.round@ == "Round: "@ + decimal(self.counter.session as nat),
            screen.running == self.counter.runs(),
            self.prompt ==> screen.title@ == skip_prompt_text(self.counter.following()).0
                && screen.count.is_none() && screen.control@ == PROMPT_CONTROLS@,
            !self.prompt ==> match self.counter.counter.checked(live) {
                CountType::Count(left) => screen.title@ == pomo_title_text(self.counter.mode)
                    && (screen.count matches Some(text) && text@ == clock_text(left))
                    && screen.control@ == COUNT_CONTROLS@,
                CountType::Exceed(excess) => screen.title@ == rest_title_text(self.counter.mode)
                    && (screen.count matches Some(text) && text@ == "+"@ + clock_text(excess))
                    && screen.control@ == EXCEED_CONTROLS@,
            },
    {
        let mut round = String::from_str("Round: ");
        push_decimal(&mut round, self.counter.session() as u128);
        let running = self.counter.is_running();
        if self.prompt {
            let (title, _) = get_skip_prompt(self.counter.check_next_mode());
            Screen { title, count: None, running, control: PROMPT_CONTROLS, round }
        } else {
            match self.counter.counter.checked_counter_after(live) {
                CountType::Count(count) => Screen {
                    title: get_pomo_title(self.counter.mode),
                    count: Some(fmt_time(count)),
                    running,
                    control: COUNT_CONTROLS,
                    round,
                },
                CountType::Exceed(count) => {
                    let mut text = String::from_str("+");
                    text.append(fmt_time(count).as_str());
                    Screen {
                        title: get_rest_title(self.counter.mode),
                        count: Some(text),
                        running,
                        control: EXCEED_CONTROLS,
                        round,
                    }
                },
            }
        }
    }
}

/// The counter of a timer or of a stopwatch after `command`, given at the
/// instant `now` at which its current interval had lasted `live`; `None`
/// where the command is to quit. Space and enter pause and resume.
pub open spec fn count_after(counter: TimeCount, command: Command, now: Instant, live: Duration)
    -> Option<TimeCount> {
    match command {
        Command::Quit => None,
        Command::Space | Command::Enter => Some(counter.toggled(now, live)),
        _ => Some(counter),
    }
}

/// Takes a command for a stopwatch.
pub fn stopwatch(counter: TimeCount, command: Command, now: Instant, live: Duration) -> (next:
    Option<TimeCount>)
    ensures
        next == count_after(counter, command, now, live),
{
    match command {
        Command::Quit => None,
        Command::Space | Command::Enter => {
            let mut counter = counter;
            counter.toggle_with(now, live);
            Some(counter)
        },
        _ => Some(counter),
    }
}

/// Looks at a timer when its current interval has lasted `live`, with no
/// key pressed: gives the latch afterwards, and whether the alert is to be
/// sent now. The alert is sent at the first look at or beyond the target,
/// and the latch is closed from then on.
pub fn timer_tick(counter: &Timer, alerted: bool, live: Duration) -> (looked: (bool, bool))
    ensures
        looked.0 == (alerted || counter.ended(live)),
        looked.1 == (!alerted && counter.ended(live)),
{
    let ended = counter.has_ended_after(live);
    (alerted || ended, !alerted && ended)
}

/// How long the current interval of a timer has lasted right after
/// `command`, when it had lasted `live` before: a toggle ends the interval
/// or begins a new one, and any other command lets it run on.
pub open spec fn live_after(command: Command, live: Duration) -> Duration {
    match command {
        Command::Space | Command::Enter => Duration { nanos: 0 },
        _ => live,
    }
}

/// Takes a command for a timer, given at the instant `now` at which its
/// current interval had lasted `live`, and then looks whether its end is to
/// be announced. Gives the timer after the command, or `None` where the
/// command is to quit, then the latch, then whether the alert is to be sent
/// now.
pub fn timer(counter: Timer, alerted: bool, command: Command, now: Instant, live: Duration) -> (next:
    (Option<Timer>, bool, bool))
    ensures
        next.0 == match count_after(counter.counter, command, now, live) {
            Some(count) => Some(Timer { counter: count, target: counter.target }),
            None => None,
        },
        next.0 matches Some(after) ==> next.1 == (alerted || after.ended(
            live_after(command, live),
        )) && next.2 == (!alerted && after.ended(live_after(command, live))),
        next.0 is None ==> next.1 == alerted && !next.2,
{
    match command {
        Command::Quit => (None, alerted, false),
        Command::Space | Command::Enter => {
            let mut counter = counter;
            counter.counter.toggle_with(now, live);
            let (latch, send) = timer_tick(&counter, alerted, Duration::zero());
            (Some(counter), latch, send)
        },
        _ => {
            let (latch, send) = timer_tick(&counter, alerted, live);
            (Some(counter), latch, send)
        },
    }
}

/// A timer that runs on is seen to end: with a command that does not
/// toggle it, the look after the command is a look at the live reading.
pub proof fn law_running_timer_is_seen_to_end(
    counter: Timer,
    command: Command,
    now: Instant,
    live: Duration,
)
    requires
        command != Command::Quit,
        command != Command::Space,
        command != Command::Enter,
    ensures
        count_after(counter.counter, command, now, live) == Some(counter.counter),
        live_after(command, live) == live,
{
}

/// Skipping and then answering no loses and gains no time: what the timer
/// shows when it runs on is what it showed when the prompt was opened.
pub proof fn law_prompt_keeps_time(
    keyed: KeyedPomodoro,
    skipped_at: Instant,
    live: Duration,
    answered_at: Instant,
    waited: Duration,
)
    requires
        !keyed.prompt,
    ensures
        keyed.after(Command::Skip, skipped_at, live) matches Some(asked) && asked.prompt
            && asked.counter.counter.counter.reading(waited) == keyed.counter.counter.counter.reading(
            live,
        ) && (asked.after(Command::No, answered_at, waited) matches Some(back) && !back.prompt
            && back.counter.runs() && back.counter.counter.counter.reading(Duration { nanos: 0 })
            == keyed.counter.counter.counter.reading(live) && back.counter.session
            == keyed.counter.session && back.counter.mode == keyed.counter.mode),
{
}

} // verus!
