//! What a counter puts on the screen, as lines of text.
//!
//! A frame says which lines are shown, top to bottom, and which of them are
//! coloured by the state of the counter. Where they go on the screen is for
//! the terminal to decide.

use crate::text::{decimal, push_decimal};
use vstd::prelude::*;
use vstd::string::StringExecFns;

verus! {

/// The colour of a line that follows the state of the counter.
#[derive(Debug, Clone, Copy, PartialEq, Eq, Structural)]
pub enum Color {
    /// The counter runs.
    Green,
    /// The counter stands.
    Red,
}

/// One line of a frame.
#[derive(Debug, Clone)]
pub struct Line {
    pub text: String,
    /// `None` for a line in the terminal's own colour.
    pub color: Option<Color>,
}

/// The lines of one picture of a counter, top to bottom.
#[derive(Debug, Clone)]
pub struct Frame {
    pub lines: Vec<Line>,
}

/// A line as its text and its colour.
pub type LineView = (Seq<char>, Option<Color>);

impl Frame {
    /// The lines of the frame, each as its text and its colour.
    pub open spec fn shown(self) -> Seq<LineView> {
        Seq::new(self.lines@.len(), |i: int| (self.lines@[i].text@, self.lines@[i].color))
    }

    /// An empty frame.
    pub fn new() -> (frame: Self)
        ensures
            frame.shown() == Seq::<LineView>::empty(),
    {
        let frame = Frame { lines: Vec::new() };
        assert(frame.shown() =~= Seq::<LineView>::empty());
        frame
    }

    /// Puts a line in the terminal's own colour below the others.
    pub fn plain(&mut self, text: &str)
        ensures
            final(self).shown() == old(self).shown().push((text@, None)),
    {
        self.lines.push(Line { text: String::from_str(text), color: None });
        assert(self.shown() =~= old(self).shown().push((text@, None)));
    }

    /// Puts a line below the others.
    pub fn line(&mut self, text: String, color: Option<Color>)
        ensures
            final(self).shown() == old(self).shown().push((text@, color)),
    {
        let ghost shown = text@;
        self.lines.push(Line { text, color });
        assert(self.shown() =~= old(self).shown().push((shown, color)));
    }
}

/// The colour that shows whether a counter runs: green if it does, red if
/// it does not.
pub fn running_color(running: bool) -> (color: Color)
    ensures
        color == if running {
            Color::Green
        } else {
            Color::Red
        },
{
    match running {
        true => Color::Green,
        false => Color::Red,
    }
}

/// The colour that shows whether a counter runs.
pub open spec fn tint(running: bool) -> Option<Color> {
    Some(if running {
        Color::Green
    } else {
        Color::Red
    })
}

/// The text of a label followed by a number, as in `Session: 3`.
pub open spec fn numbered(label: Seq<char>, number: nat) -> Seq<char> {
    label + decimal(number)
}

/// A label followed by a number.
pub fn label_number(label: &str, number: u128) -> (text: String)
    ensures
        text@ == numbered(label@, number as nat),
{
    let mut text = String::from_str(label);
    push_decimal(&mut text, number);
    text
}

/// The text of a mark in front of other text, as in `+0h 0m 1s`.
pub fn prefixed(mark: &str, rest: &str) -> (text: String)
    ensures
        text@ == mark@ + rest@,
{
    let mut text = String::from_str(mark);
    text.append(rest);
    text
}

} // verus!
