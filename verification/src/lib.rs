//! Pausable time tracking for a stopwatch, a countdown timer and a pomodoro
//! work/break cycle, together with the state machines that drive them.

pub mod alert;
pub mod cli;
pub mod clock;
pub mod config;
pub mod countdown;
pub mod counter;
pub mod display;
pub mod error;
pub mod format;
pub mod helpers;
pub mod input;
pub mod pausable;
pub mod pomodoro;
pub mod stopwatch;
pub mod text;
pub mod time;
pub mod timer;
pub mod ui;
