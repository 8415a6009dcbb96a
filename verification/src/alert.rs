//! The latch that lets the end of a phase be announced once.
//!
//! Nothing here sends anything. A latch is asked with the alert that would
//! be sent, and hands it back the first time it is asked: whoever runs the
//! event loop sends what it gets.

use vstd::prelude::*;

verus! {

/// A latch that is open until the first alert has passed it.
#[derive(Debug, Clone, Copy, PartialEq, Eq, Structural)]
pub struct Alerter(pub bool);

impl Default for Alerter {
    /// An open latch.
    fn default() -> (alerter: Self)
        ensures
            !alerter.0,
    {
        Self(false)
    }
}

impl Alerter {
    /// Asks the latch to let an alert pass. An open latch closes and hands
    /// the alert back, to be sent; a closed latch hands back nothing.
    pub fn alert_once<'a>(&mut self, title: &'a str, message: &'a str) -> (notice: Option<
        (&'a str, &'a str),
    >)
        ensures
            final(self).0,
            notice == if old(self).0 {
                None
            } else {
                Some((title, message))
            },
    {
        if !self.0 {
            self.0 = true;
            Some((title, message))
        } else {
            None
        }
    }

    /// Opens the latch again.
    pub fn reset(&mut self)
        ensures
            !final(self).0,
    {
        self.0 = false;
    }
}

/// A latch that is open until the first alert has passed it.
#[derive(Debug, Clone, Copy, PartialEq, Eq, Structural)]
pub struct Alert {
    /// Whether an alert has passed since the latch was last opened.
    pub alerted: bool,
}

impl Default for Alert {
    /// An open latch.
    fn default() -> (alert: Self)
        ensures
            !alert.alerted,
    {
        Self { alerted: false }
    }
}

impl Alert {
    /// An open latch.
    pub fn new() -> (alert: Self)
        ensures
            !alert.alerted,
    {
        Self { alerted: false }
    }

    /// Asks the latch to let an alert pass. An open latch closes and hands
    /// the alert back, to be sent; a closed latch hands back nothing.
    pub fn alert<'a>(&mut self, title: &'a str, message: &'a str) -> (notice: Option<
        (&'a str, &'a str),
    >)
        ensures
            final(self).alerted,
            notice == if old(self).alerted {
                None
            } else {
                Some((title, message))
            },
    {
        if !self.alerted {
            self.alerted = true;
            Some((title, message))
        } else {
            None
        }
    }

    /// Opens the latch again.
    pub fn reset(&mut self)
        ensures
            !final(self).alerted,
    {
        if self.alerted {
            self.alerted = false;
        }
    }
}

/// How many of the requests of `asked`, made in order on a latch that is
/// closed or open as `closed` says, get their alert back. A request that is
/// `true` opens the latch first.
pub open spec fn alerts_passed(closed: bool, asked: Seq<bool>) -> nat
    decreases asked.len(),
{
    if asked.len() == 0 {
        0
    } else {
        let before = asked.drop_last();
        if asked.last() || !closed_after(closed, before) {
            alerts_passed(closed, before) + 1
        } else {
            alerts_passed(closed, before)
        }
    }
}

/// Whether the latch is closed after the requests of `asked`.
pub open spec fn closed_after(closed: bool, asked: Seq<bool>) -> bool {
    asked.len() > 0 || closed
}

/// How many of the requests of `asked` open the latch first.
pub open spec fn resets(asked: Seq<bool>) -> nat
    decreases asked.len(),
{
    if asked.len() == 0 {
        0
    } else if asked.last() {
        resets(asked.drop_last()) + 1
    } else {
        resets(asked.drop_last())
    }
}

/// However often a latch is asked, it lets at most one alert pass each time
/// it is opened: one for each reset, and one more if it was open at first.
/// Without a reset, an open latch passes exactly the first request.
pub proof fn law_latch_passes_once(closed: bool, asked: Seq<bool>)
    ensures
        alerts_passed(closed, asked) <= resets(asked) + if closed {
            0nat
        } else {
            1nat
        },
        resets(asked) == 0 && asked.len() > 0 ==> alerts_passed(closed, asked) == if closed {
            0nat
        } else {
            1nat
        },
    decreases asked.len(),
{
    if asked.len() > 0 {
        law_latch_passes_once(closed, asked.drop_last());
    }
}

} // verus!
