//! What the programs around a pomodoro share: the words of its alerts, and
//! time as a clock shows it.

pub mod alert;
pub mod format;
