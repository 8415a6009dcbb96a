//! Commands, and how a key press is read as one.

use vstd::prelude::*;

verus! {

/// What the user asks of a running counter.
#[derive(Clone, Copy, Debug, PartialEq, Eq, Structural)]
pub enum Command {
    Quit,
    Pause,
    Resume,
    Toggle,
    Enter,
    Skip,
    Yes,
    No,
    Invalid,
}

/// The key of a key event, as far as commands depend on it.
#[derive(Clone, Copy, Debug, PartialEq, Eq, Structural)]
pub enum KeyCode {
    /// A character key.
    Char(char),
    /// The enter key.
    Enter,
    /// Any other key.
    Other,
}

/// Whether a key went down, is held, or came up.
#[derive(Clone, Copy, Debug, PartialEq, Eq, Structural)]
pub enum KeyEventKind {
    Press,
    Repeat,
    Release,
}

/// No modifier key is held.
pub const MODIFIERS_NONE: u8 = 0;

/// Shift alone is held.
pub const MODIFIERS_SHIFT: u8 = 1;

/// Control alone is held.
pub const MODIFIERS_CONTROL: u8 = 2;

/// A key event: the key, the modifier keys held with it as a set of bits,
/// and what happened to the key.
#[derive(Clone, Copy, Debug, PartialEq, Eq, Structural)]
pub struct KeyEvent {
    pub code: KeyCode,
    pub modifiers: u8,
    pub kind: KeyEventKind,
}

/// An input event: a key event, or anything else the terminal reports.
#[derive(Clone, Copy, Debug, PartialEq, Eq, Structural)]
pub enum Event {
    Key(KeyEvent),
    Other,
}

/// The command that the character `c` stands for when no modifier key is
/// held.
pub open spec fn plain_char_command(c: char) -> Command {
    if c == 'q' {
        Command::Quit
    } else if c == ' ' || c == 't' {
        Command::Toggle
    } else if c == 'y' {
        Command::Yes
    } else if c == 'n' {
        Command::No
    } else if c == 'p' {
        Command::Pause
    } else if c == 'c' {
        Command::Resume
    } else {
        Command::Invalid
    }
}

/// The command that a key event stands for. Only a key going down gives a
/// command, and the modifier keys have to be exactly the ones named: `q`,
/// control-`c` and control-`z` quit, space and `t` toggle, enter confirms,
/// shift-`S` skips, `y` and `n` answer, `p` pauses and `c` resumes.
pub open spec fn key_command(key: KeyEvent) -> Command {
    if key.kind != KeyEventKind::Press {
        Command::Invalid
    } else {
        match key.code {
            KeyCode::Char(c) => if key.modifiers == MODIFIERS_NONE {
                plain_char_command(c)
            } else if key.modifiers == MODIFIERS_CONTROL && (c == 'c' || c == 'z') {
                Command::Quit
            } else if key.modifiers == MODIFIERS_SHIFT && c == 'S' {
                Command::Skip
            } else {
                Command::Invalid
            },
            KeyCode::Enter => if key.modifiers == MODIFIERS_NONE {
                Command::Enter
            } else {
                Command::Invalid
            },
            KeyCode::Other => Command::Invalid,
        }
    }
}

/// The command that an input event stands for: that of its key event, and
/// none for any other event.
pub open spec fn event_command(event: Event) -> Command {
    match event {
        Event::Key(key) => key_command(key),
        Event::Other => Command::Invalid,
    }
}

impl From<KeyEvent> for Command {
    fn from(key: KeyEvent) -> (command: Self) {
        match key {
            KeyEvent { code: KeyCode::Char('q'), kind: KeyEventKind::Press, modifiers: MODIFIERS_NONE } => Command::Quit,
            KeyEvent { code: KeyCode::Char('c'), kind: KeyEventKind::Press, modifiers: MODIFIERS_CONTROL } => Command::Quit,
            KeyEvent { code: KeyCode::Char('z'), kind: KeyEventKind::Press, modifiers: MODIFIERS_CONTROL } => Command::Quit,
            KeyEvent { code: KeyCode::Char(' '), kind: KeyEventKind::Press, modifiers: MODIFIERS_NONE } => Command::Toggle,
            KeyEvent { code: KeyCode::Enter, kind: KeyEventKind::Press, modifiers: MODIFIERS_NONE } => Command::Enter,
            KeyEvent { code: KeyCode::Char('S'), kind: KeyEventKind::Press, modifiers: MODIFIERS_SHIFT } => Command::Skip,
            KeyEvent { code: KeyCode::Char('y'), kind: KeyEventKind::Press, modifiers: MODIFIERS_NONE } => Command::Yes,
            KeyEvent { code: KeyCode::Char('n'), kind: KeyEventKind::Press, modifiers: MODIFIERS_NONE } => Command::No,
            KeyEvent { code: KeyCode::Char('t'), kind: KeyEventKind::Press, modifiers: MODIFIERS_NONE } => Command::Toggle,
            KeyEvent { code: KeyCode::Char('p'), kind: KeyEventKind::Press, modifiers: MODIFIERS_NONE } => Command::Pause,
            KeyEvent { code: KeyCode::Char('c'), kind: KeyEventKind::Press, modifiers: MODIFIERS_NONE } => Command::Resume,
            _ => Command::Invalid,
        }
    }
}

impl vstd::std_specs::convert::FromSpecImpl<KeyEvent> for Command {
    open spec fn obeys_from_spec() -> bool {
        true
    }

    open spec fn from_spec(key: KeyEvent) -> Command {
        key_command(key)
    }
}

impl From<Event> for Command {
    fn from(event: Event) -> (command: Self) {
        match event {
            Event::Key(key) => Command::from(key),
            Event::Other => Command::Invalid,
        }
    }
}

impl vstd::std_specs::convert::FromSpecImpl<Event> for Command {
    open spec fn obeys_from_spec() -> bool {
        true
    }

    open spec fn from_spec(event: Event) -> Command {
        event_command(event)
    }
}

} // verus!
