//! What the command line asks for, and what is started for it.

use crate::config::AppConfig;
use crate::pomodoro::PomodoroConfig;
use crate::time::Duration;
use vstd::prelude::*;

verus! {

/// The command line.
#[derive(Debug, Clone, Copy, PartialEq, Eq, Structural)]
pub struct Cli {
    /// The counter that is asked for; `None` where the command line names
    /// none.
    pub mode: Option<CounterMode>,
}

/// The counters that can be asked for.
#[derive(Debug, Clone, Copy, PartialEq, Eq, Structural)]
pub enum CounterMode {
    /// Counts up until it is told to stop.
    Stopwatch,
    /// Counts down to `target`.
    Timer { target: Duration },
    /// Runs a pomodoro cycle, and says at the end how the time was spent
    /// if `exitmessage` is set.
    Pomodoro { mode: PomoMode, exitmessage: bool },
}

/// The pomodoro cycles that can be asked for.
#[derive(Debug, Clone, Copy, PartialEq, Eq, Structural)]
pub enum PomoMode {
    /// 25 minutes of work, breaks of 5 and 10 minutes.
    Short,
    /// 55 minutes of work, breaks of 10 and 20 minutes.
    Long,
    /// Any durations.
    Custom { work_time: Duration, break_time: Duration, long_break: Duration },
}

/// What is started for a command line.
#[derive(Debug, Clone, Copy, PartialEq, Eq, Structural)]
pub enum Launch {
    Stopwatch,
    Timer(Duration),
    Pomodoro(PomodoroConfig),
}

impl PomoMode {
    /// The cycle that is run for this choice under the configuration `app`:
    /// what the configuration names goes before the durations of the short
    /// and of the long cycle, and what the command line names goes before
    /// the configuration.
    pub open spec fn cycle(self, app: AppConfig) -> PomodoroConfig {
        match self {
            PomoMode::Short => PomodoroConfig::short_cycle().overridden(app),
            PomoMode::Long => PomodoroConfig::long_cycle().overridden(app),
            PomoMode::Custom { work_time, break_time, long_break } => PomodoroConfig {
                work_time,
                break_time,
                long_break,
            },
        }
    }

    /// The cycle that is run for this choice under the configuration `app`.
    pub fn config(&self, app: &AppConfig) -> (config: PomodoroConfig)
        ensures
            config == self.cycle(*app),
    {
        match *self {
            PomoMode::Short => PomodoroConfig::short_with_config(app),
            PomoMode::Long => PomodoroConfig::long_with_config(app),
            PomoMode::Custom { work_time, break_time, long_break } => {
                PomodoroConfig::new_with_config(work_time, break_time, long_break, app)
            },
        }
    }
}

impl Cli {
    /// What is started for this command line under the configuration `app`:
    /// the counter that is asked for, and the short pomodoro where none is.
    pub open spec fn plan(self, app: AppConfig) -> Launch {
        match self.mode {
            Some(CounterMode::Stopwatch) => Launch::Stopwatch,
            Some(CounterMode::Timer { target }) => Launch::Timer(target),
            Some(CounterMode::Pomodoro { mode, exitmessage }) => Launch::Pomodoro(mode.cycle(app)),
            None => Launch::Pomodoro(PomodoroConfig::short_cycle().overridden(app)),
        }
    }

    /// Whether the farewell of this command line is to be printed: only a
    /// pomodoro that asks for it has one.
    pub open spec fn wants_farewell(self) -> bool {
        self.mode matches Some(CounterMode::Pomodoro { mode, exitmessage }) && exitmessage
    }

    /// What is started for this command line under the configuration `app`.
    pub fn launch(&self, app: &AppConfig) -> (launch: Launch)
        ensures
            launch == self.plan(*app),
    {
        match self.mode {
            Some(CounterMode::Stopwatch) => Launch::Stopwatch,
            Some(CounterMode::Timer { target }) => Launch::Timer(target),
            Some(CounterMode::Pomodoro { mode, exitmessage: _ }) => Launch::Pomodoro(
                mode.config(app),
            ),
            None => Launch::Pomodoro(PomodoroConfig::short_with_config(app)),
        }
    }

    /// Whether the farewell of this command line is to be printed.
    pub fn exit_message(&self) -> (wanted: bool)
        ensures
            wanted == self.wants_farewell(),
    {
        match self.mode {
            Some(CounterMode::Pomodoro { mode: _, exitmessage }) => exitmessage,
            _ => false,
        }
    }
}

} // verus!
