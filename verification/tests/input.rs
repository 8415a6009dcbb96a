use porsmo::input::{
    Command, Event, KeyCode, KeyEvent, KeyEventKind, MODIFIERS_CONTROL, MODIFIERS_NONE,
    MODIFIERS_SHIFT,
};

fn press(code: KeyCode, modifiers: u8) -> KeyEvent {
    KeyEvent { code, modifiers, kind: KeyEventKind::Press }
}

#[test]
fn keys_stand_for_commands() {
    assert_eq!(Command::from(press(KeyCode::Char('q'), MODIFIERS_NONE)), Command::Quit);
    assert_eq!(Command::from(press(KeyCode::Char('c'), MODIFIERS_CONTROL)), Command::Quit);
    assert_eq!(Command::from(press(KeyCode::Char('z'), MODIFIERS_CONTROL)), Command::Quit);
    assert_eq!(Command::from(press(KeyCode::Char(' '), MODIFIERS_NONE)), Command::Toggle);
    assert_eq!(Command::from(press(KeyCode::Char('t'), MODIFIERS_NONE)), Command::Toggle);
    assert_eq!(Command::from(press(KeyCode::Enter, MODIFIERS_NONE)), Command::Enter);
    assert_eq!(Command::from(press(KeyCode::Char('S'), MODIFIERS_SHIFT)), Command::Skip);
    assert_eq!(Command::from(press(KeyCode::Char('y'), MODIFIERS_NONE)), Command::Yes);
    assert_eq!(Command::from(press(KeyCode::Char('n'), MODIFIERS_NONE)), Command::No);
    assert_eq!(Command::from(press(KeyCode::Char('p'), MODIFIERS_NONE)), Command::Pause);
    assert_eq!(Command::from(press(KeyCode::Char('c'), MODIFIERS_NONE)), Command::Resume);
}

#[test]
fn other_keys_stand_for_nothing() {
    assert_eq!(Command::from(press(KeyCode::Char('x'), MODIFIERS_NONE)), Command::Invalid);
    assert_eq!(Command::from(press(KeyCode::Char('q'), MODIFIERS_SHIFT)), Command::Invalid);
    assert_eq!(Command::from(press(KeyCode::Char('q'), MODIFIERS_CONTROL)), Command::Invalid);
    assert_eq!(Command::from(press(KeyCode::Char('S'), MODIFIERS_NONE)), Command::Invalid);
    assert_eq!(Command::from(press(KeyCode::Char('s'), MODIFIERS_SHIFT)), Command::Invalid);
    assert_eq!(
        Command::from(press(KeyCode::Char('c'), MODIFIERS_CONTROL | MODIFIERS_SHIFT)),
        Command::Invalid
    );
    assert_eq!(Command::from(press(KeyCode::Char('q'), 4)), Command::Invalid);
    assert_eq!(Command::from(press(KeyCode::Enter, MODIFIERS_SHIFT)), Command::Invalid);
    assert_eq!(Command::from(press(KeyCode::Other, MODIFIERS_NONE)), Command::Invalid);
}

#[test]
fn only_a_key_going_down_gives_a_command() {
    let release =
        KeyEvent { code: KeyCode::Char('q'), modifiers: MODIFIERS_NONE, kind: KeyEventKind::Release };
    let repeat =
        KeyEvent { code: KeyCode::Char('q'), modifiers: MODIFIERS_NONE, kind: KeyEventKind::Repeat };
    assert_eq!(Command::from(release), Command::Invalid);
    assert_eq!(Command::from(repeat), Command::Invalid);
}

#[test]
fn events_stand_for_the_command_of_their_key() {
    assert_eq!(
        Command::from(Event::Key(press(KeyCode::Char('q'), MODIFIERS_NONE))),
        Command::Quit
    );
    assert_eq!(Command::from(Event::Key(press(KeyCode::Enter, MODIFIERS_NONE))), Command::Enter);
    assert_eq!(Command::from(Event::Other), Command::Invalid);
}
