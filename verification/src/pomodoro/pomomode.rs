//! The phases of a pomodoro cycle.

use super::pomoconfig::PomoConfig;
use crate::time::Duration;
use vstd::prelude::*;

verus! {

/// One phase of the cycle.
#[derive(Clone, Copy, Debug, PartialEq, Eq, Structural)]
pub enum PomodoroMode {
    Work,
    Break,
    LongBreak,
}

impl Default for PomodoroMode {
    /// A cycle begins with work.
    fn default() -> (mode: Self)
        ensures
            mode == PomodoroMode::Work,
    {
        Self::Work
    }
}

impl PomodoroMode {
    /// How long the phase lasts under `config`.
    pub open spec fn target(self, config: PomoConfig) -> Duration {
        match self {
            PomodoroMode::Work => config.work_time,
            PomodoroMode::Break => config.break_time,
            PomodoroMode::LongBreak => config.long_break,
        }
    }

    /// How long the phase lasts under `config`.
    pub fn current_target(&self, config: &PomoConfig) -> (target: Duration)
        ensures
            target == self.target(*config),
    {
        match self {
            Self::Work => config.work_time,
            Self::Break => config.break_time,
            Self::LongBreak => config.long_break,
        }
    }
}

} // verus!
