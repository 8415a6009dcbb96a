//! A pomodoro behind a panel of buttons: what the panel shows, and what a
//! press does.

use super::counter::{Pausable, Reset, Status, TimeCount};
use super::pomodoro::{Mode, PomoMode, Pomodoro};
use super::timer::{CountType, Timer};
use crate::format::{fmt_time, time_text};
use crate::helpers::alert::{alert_pomo, alert_words};
use crate::time::{clock_now, Duration, NANOS_PER_SEC};
use std::time::Instant;
use vstd::prelude::*;
use vstd::string::StringExecFns;

verus! {

/// A pomodoro and the latch of its alert.
#[derive(Debug, Clone, Copy)]
pub struct Porsmo {
    pub pomo: Pomodoro,
    /// Whether the end of the current phase has been announced.
    pub alerted: bool,
}

/// What the user can press.
#[derive(Debug, Clone, Copy, PartialEq, Eq, Structural)]
pub enum Press {
    /// The button that pauses and resumes.
    Toggle,
    /// The button that sets the timer back.
    Reset,
    /// The button that starts the next phase.
    StartNext,
    /// The space bar.
    Space,
    /// The enter key.
    Enter,
}

/// What the panel shows.
#[derive(Debug)]
pub struct Panel {
    /// Whether the dark look is on: it is once the phase is over.
    pub dark: bool,
    /// The time, with a plus sign once the phase is over.
    pub heading: String,
    /// Whether the time is shown in red: it is while the timer is paused.
    pub red: bool,
    /// The label of the button that pauses and resumes.
    pub toggle_label: &'static str,
}

/// The whole seconds of `time`, held at the largest number of 64 bits.
pub open spec fn whole_seconds(time: Duration) -> u64 {
    if time.nanos / NANOS_PER_SEC > u64::MAX {
        u64::MAX
    } else {
        (time.nanos / NANOS_PER_SEC) as u64
    }
}

/// The whole seconds of `time`.
pub fn seconds_of(time: Duration) -> (secs: u64)
    ensures
        secs == whole_seconds(time),
{
    let secs = time.as_secs();
    if secs > u64::MAX as u128 {
        u64::MAX
    } else {
        secs as u64
    }
}

impl Default for Porsmo {
    /// The short cycle, beginning with work now, nothing announced.
    fn default() -> (panel: Self)
        ensures
            !panel.alerted,
            panel.pomo.session == 1,
            panel.pomo.mode == Mode::Work,
            panel.pomo.counter.target == crate::pomodoro::pomoconfig::minutes(25),
    {
        Self {
            pomo: Pomodoro::new(
                Duration::from_secs(25 * 60),
                Duration::from_secs(5 * 60),
                Duration::from_secs(10 * 60),
            ),
            alerted: false,
        }
    }
}

impl Porsmo {
    /// The name of the program.
    pub const NAME: &'static str = "Porsmo";

    /// The text of the time at that reading.
    pub open spec fn heading(self, live: Duration) -> Seq<char> {
        match self.pomo.counter.checked(live) {
            CountType::Count(left) => time_text(whole_seconds(left) as nat),
            CountType::Exceed(excess) => "+"@ + time_text(whole_seconds(excess) as nat),
        }
    }

    /// The panel after `press`, made at the instant `now` at which the
    /// timer's current interval had lasted `live`. The toggle button and the
    /// space bar pause and resume; reset sets the timer back and opens the
    /// latch; enter starts the next phase once the current one is over and
    /// pauses or resumes before; the next phase opens the latch.
    pub open spec fn pressed(self, press: Press, now: Instant, live: Duration) -> Porsmo {
        match press {
            Press::Toggle | Press::Space => self.toggled(now, live),
            Press::Reset => Porsmo {
                pomo: Pomodoro {
                    counter: Timer {
                        counter: TimeCount {
                            started: now,
                            elapsed: Duration { nanos: 0 },
                            status: self.pomo.counter.counter.status,
                        },
                        target: self.pomo.counter.target,
                    },
                    ..self.pomo
                },
                alerted: false,
            },
            Press::StartNext => Porsmo { pomo: self.pomo.advanced(now), alerted: false },
            Press::Enter => if self.pomo.counter.ended(live) {
                Porsmo { pomo: self.pomo.advanced(now), alerted: false }
            } else {
                self.toggled(now, live)
            },
        }
    }

    /// The panel with its timer toggled.
    pub open spec fn toggled(self, now: Instant, live: Duration) -> Porsmo {
        Porsmo {
            pomo: Pomodoro {
                counter: Timer {
                    counter: self.pomo.counter.counter.toggled(now, live),
                    target: self.pomo.counter.target,
                },
                ..self.pomo
            },
            alerted: self.alerted,
        }
    }

    /// Closes the latch and gives the alert that announces the next phase.
    pub fn alert(&mut self) -> (notice: (String, String))
        ensures
            final(self).alerted,
            final(self).pomo == old(self).pomo,
            (notice.0@, notice.1@) == alert_words(old(self).pomo.following()),
    {
        self.alerted = true;
        alert_pomo(self.pomo.check_next_mode())
    }

    /// Whether the end of the current phase has been announced.
    pub fn has_alerted(&self) -> (alerted: bool)
        ensures
            alerted == self.alerted,
    {
        self.alerted
    }

    /// Opens the latch.
    pub fn reset(&mut self)
        ensures
            !final(self).alerted,
            final(self).pomo == old(self).pomo,
    {
        self.alerted = false;
    }

    /// Sets the timer back to its full time, counted from `now`, and opens
    /// the latch.
    pub fn reset_timer_at(&mut self, now: Instant)
        ensures
            *final(self) == old(self).pressed(Press::Reset, now, Duration { nanos: 0 }),
    {
        self.pomo.counter.counter.reset_at(now);
        self.reset();
    }

    /// Sets the timer back to its full time, counted from now, and opens
    /// the latch.
    pub fn reset_timer(&mut self)
        ensures
            exists|now: Instant|
                *final(self) == old(self).pressed(Press::Reset, now, Duration { nanos: 0 }),
    {
        let now = clock_now();
        self.reset_timer_at(now);
    }

    /// What the panel shows when the timer's current interval has lasted
    /// `live`, and the alert to send with it: the first look at a phase that
    /// is over closes the latch and comes with the alert.
    pub fn view_with(&mut self, live: Duration) -> (shown: (Panel, Option<(String, String)>))
        ensures
            final(self).pomo == old(self).pomo,
            final(self).alerted == (old(self).alerted || old(self).pomo.counter.ended(live)),
            shown.0.dark == old(self).pomo.counter.ended(live),
            shown.0.heading@ == old(self).heading(live),
            shown.0.red == !old(self).pomo.runs(),
            shown.0.toggle_label@ == if old(self).pomo.runs() {
                "Pause"@
            } else {
                "Resume"@
            },
            shown.1.is_some() == (old(self).pomo.counter.ended(live) && !old(self).alerted),
            shown.1 matches Some(text) ==> (text.0@, text.1@) == alert_words(
                old(self).pomo.following(),
            ),
    {
        let dark = self.pomo.counter.has_ended_after(live);
        let mut notice: Option<(String, String)> = None;
        let heading = match self.pomo.counter.checked_counter_after(live) {
            CountType::Count(c) => fmt_time(seconds_of(c)),
            CountType::Exceed(c) => {
                if !self.has_alerted() {
                    notice = Some(self.alert());
                }
                let mut heading = String::from_str("+");
                heading.append(fmt_time(seconds_of(c)).as_str());
                heading
            },
        };
        let red = self.pomo.is_paused();
        let toggle_label = if self.pomo.is_running() {
            "Pause"
        } else {
            "Resume"
        };
        (Panel { dark, heading, red, toggle_label }, notice)
    }

    /// Takes a press made at the instant `now` at which the timer's current
    /// interval had lasted `live`.
    pub fn press_with(&mut self, press: Press, now: Instant, live: Duration)
        ensures
            *final(self) == old(self).pressed(press, now, live),
    {
        match press {
            Press::Toggle | Press::Space => {
                self.pomo.counter.counter.toggle_with(now, live);
            },
            Press::Reset => {
                self.reset_timer_at(now);
            },
            Press::StartNext => {
                self.reset();
                self.pomo.next_mode_at(now);
            },
            Press::Enter => {
                if self.pomo.counter.has_ended_after(live) {
                    self.reset();
                    self.pomo.next_mode_at(now);
                } else {
                    self.pomo.counter.counter.toggle_with(now, live);
                }
            },
        }
    }

    /// Takes a press, by the clock.
    pub fn press(&mut self, press: Press)
        ensures
            exists|now: Instant, live: Duration| *final(self) == old(self).pressed(press, now, live),
    {
        let live = self.pomo.counter.counter.live();
        let now = clock_now();
        self.press_with(press, now, live);
    }
}

/// The panel announces the end of a phase at most once: a look that comes
/// after a look at a phase that is over sends nothing, and a press opens the
/// latch only where it sets the timer back or starts the next phase.
pub proof fn law_panel_alerts_once(panel: Porsmo, press: Press, now: Instant, live: Duration)
    ensures
        panel.alerted && (press == Press::Toggle || press == Press::Space) ==> panel.pressed(
            press,
            now,
            live,
        ).alerted,
        panel.alerted && press == Press::Enter && !panel.pomo.counter.ended(live)
            ==> panel.pressed(press, now, live).alerted,
        panel.pressed(press, now, live).pomo.mode != panel.pomo.mode ==> !panel.pressed(
            press,
            now,
            live,
        ).alerted,
{
}

} // verus!
