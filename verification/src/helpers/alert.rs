//! The words that announce the next phase of a pomodoro.

use crate::pausable::pomodoro::Mode;
use vstd::prelude::*;
use vstd::string::StringExecFns;

verus! {

/// The title and the body of the alert that announces `next_mode`.
pub open spec fn alert_words(next_mode: Mode) -> (Seq<char>, Seq<char>) {
    match next_mode {
        Mode::Work => ("Your break ended!"@, "Time for some work"@),
        Mode::Rest => ("Pomodoro ended!"@, "Time for a short break"@),
        Mode::LongRest => ("Pomodoro 4 sessions complete!"@, "Time for a long break"@),
    }
}

/// The title and the body of the alert that announces `next_mode`.
pub fn get_alert_messages(next_mode: Mode) -> (text: (&'static str, &'static str))
    ensures
        (text.0@, text.1@) == alert_words(next_mode),
{
    match next_mode {
        Mode::Work => ("Your break ended!", "Time for some work"),
        Mode::Rest => ("Pomodoro ended!", "Time for a short break"),
        Mode::LongRest => ("Pomodoro 4 sessions complete!", "Time for a long break"),
    }
}

/// The alert to send when `next_mode` is due, as text of its own.
pub fn alert_pomo(next_mode: Mode) -> (notice: (String, String))
    ensures
        (notice.0@, notice.1@) == alert_words(next_mode),
{
    let (heading, message) = get_alert_messages(next_mode);
    (String::from_str(heading), String::from_str(message))
}

} // verus!
