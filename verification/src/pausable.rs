//! Counters behind traits: what can be paused, what can be reset, what can
//! be read and what comes to an end, and the types that are all of these.

pub mod counter;
pub mod panel;
pub mod pomodoro;
pub mod term;
pub mod timer;
