//! How long each phase of a pomodoro cycle lasts.

use crate::time::{Duration, NANOS_PER_SEC};
use vstd::prelude::*;

verus! {

/// The target durations of the three phases.
#[derive(Copy, Clone, Debug, PartialEq, Eq, Structural)]
pub struct PomoConfig {
    pub work_time: Duration,
    pub break_time: Duration,
    pub long_break: Duration,
}

/// The span of `mins` minutes.
pub open spec fn minutes(mins: u64) -> Duration {
    Duration { nanos: (mins * 60 * NANOS_PER_SEC) as u128 }
}

impl Default for PomoConfig {
    /// The short cycle.
    fn default() -> (config: Self)
        ensures
            config == PomoConfig::short_cycle(),
    {
        Self::short()
    }
}

impl PomoConfig {
    /// The short cycle: 25 minutes of work, breaks of 5 and 10 minutes.
    pub open spec fn short_cycle() -> PomoConfig {
        PomoConfig { work_time: minutes(25), break_time: minutes(5), long_break: minutes(10) }
    }

    /// The long cycle: 55 minutes of work, breaks of 10 and 20 minutes.
    pub open spec fn long_cycle() -> PomoConfig {
        PomoConfig { work_time: minutes(55), break_time: minutes(10), long_break: minutes(20) }
    }

    /// A cycle with the given durations.
    pub fn new(work_time: Duration, break_time: Duration, long_break: Duration) -> (config: Self)
        ensures
            config == (PomoConfig { work_time, break_time, long_break }),
    {
        Self { work_time, break_time, long_break }
    }

    /// The short cycle: 25 minutes of work, breaks of 5 and 10 minutes.
    pub fn short() -> (config: Self)
        ensures
            config == PomoConfig::short_cycle(),
    {
        Self {
            work_time: Duration::from_secs(25 * 60),
            break_time: Duration::from_secs(5 * 60),
            long_break: Duration::from_secs(10 * 60),
        }
    }

    /// The long cycle: 55 minutes of work, breaks of 10 and 20 minutes.
    pub fn long() -> (config: Self)
        ensures
            config == PomoConfig::long_cycle(),
    {
        Self {
            work_time: Duration::from_secs(55 * 60),
            break_time: Duration::from_secs(10 * 60),
            long_break: Duration::from_secs(20 * 60),
        }
    }
}

} // verus!
