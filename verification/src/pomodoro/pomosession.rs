//! Where a pomodoro cycle stands: its phase and its round.

use super::pomomode::PomodoroMode;
use vstd::prelude::*;

verus! {

/// The current phase and the number of the current round, which starts at 1.
#[derive(Debug, Clone, Copy, PartialEq, Eq, Structural)]
pub struct PomodoroSession {
    pub mode: PomodoroMode,
    pub number: u32,
}

/// Whether the work phase of round `number` is followed by a long break:
/// every fourth round is.
pub open spec fn long_break_due(number: int) -> bool {
    number % 4 == 0 && number != 0
}

/// The round after round `number`. The count stops at the largest number
/// that it can hold.
pub open spec fn round_after(number: u32) -> u32 {
    if number < u32::MAX {
        (number + 1) as u32
    } else {
        number
    }
}

impl Default for PomodoroSession {
    /// The work phase of round 1.
    fn default() -> (session: Self)
        ensures
            session == PomodoroSession::first(),
    {
        Self { mode: PomodoroMode::Work, number: 1 }
    }
}

impl PomodoroSession {
    /// The session a cycle begins with: the work phase of round 1.
    pub open spec fn first() -> PomodoroSession {
        PomodoroSession { mode: PomodoroMode::Work, number: 1 }
    }

    /// The session that follows this one. Work is followed by a break, a
    /// long one in every fourth round, and the round stays; a break is
    /// followed by work in the next round.
    pub open spec fn successor(self) -> PomodoroSession {
        match self.mode {
            PomodoroMode::Work => PomodoroSession {
                mode: if long_break_due(self.number as int) {
                    PomodoroMode::LongBreak
                } else {
                    PomodoroMode::Break
                },
                number: self.number,
            },
            _ => PomodoroSession { mode: PomodoroMode::Work, number: round_after(self.number) },
        }
    }

    /// The session that follows this one.
    pub fn next(&self) -> (session: Self)
        ensures
            session == self.successor(),
    {
        match self.mode {
            PomodoroMode::Work => if self.number % 4 == 0 && self.number != 0 {
                Self { mode: PomodoroMode::LongBreak, number: self.number }
            } else {
                Self { mode: PomodoroMode::Break, number: self.number }
            },
            PomodoroMode::Break | PomodoroMode::LongBreak => Self {
                mode: PomodoroMode::Work,
                number: if self.number < u32::MAX {
                    self.number + 1
                } else {
                    self.number
                },
            },
        }
    }
}

/// The session `steps` phases after `session`.
pub open spec fn later(session: PomodoroSession, steps: nat) -> PomodoroSession
    decreases steps,
{
    if steps == 0 {
        session
    } else {
        later(session, (steps - 1) as nat).successor()
    }
}

/// The round changes only where a break ends: work is followed by a break
/// of the same round, a long one exactly in every fourth round, and either
/// break is followed by work in the next round.
pub proof fn law_round_moves_after_break(session: PomodoroSession)
    ensures
        session.mode is Work ==> session.successor().number == session.number
            && !(session.successor().mode is Work) && (session.successor().mode is LongBreak
            <==> session.number % 4 == 0 && session.number != 0),
        !(session.mode is Work) ==> session.successor().mode is Work,
        !(session.mode is Work) && session.number < u32::MAX ==> session.successor().number
            == session.number + 1,
{
}

/// From the work phase of round 1 the cycle runs work, break, work, break,
/// work, break, work, long break, work: the fourth break is the long one,
/// and each work phase after a break opens the next round.
pub proof fn law_cycle()
    ensures
        later(PomodoroSession::first(), 1) == (PomodoroSession {
            mode: PomodoroMode::Break,
            number: 1,
        }),
        later(PomodoroSession::first(), 2) == (PomodoroSession {
            mode: PomodoroMode::Work,
            number: 2,
        }),
        later(PomodoroSession::first(), 3) == (PomodoroSession {
            mode: PomodoroMode::Break,
            number: 2,
        }),
        later(PomodoroSession::first(), 4) == (PomodoroSession {
            mode: PomodoroMode::Work,
            number: 3,
        }),
        later(PomodoroSession::first(), 5) == (PomodoroSession {
            mode: PomodoroMode::Break,
            number: 3,
        }),
        later(PomodoroSession::first(), 6) == (PomodoroSession {
            mode: PomodoroMode::Work,
            number: 4,
        }),
        later(PomodoroSession::first(), 7) == (PomodoroSession {
            mode: PomodoroMode::LongBreak,
            number: 4,
        }),
        later(PomodoroSession::first(), 8) == (PomodoroSession {
            mode: PomodoroMode::Work,
            number: 5,
        }),
{
    reveal_with_fuel(later, 9);
}

} // verus!
