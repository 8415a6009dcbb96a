use porsmo::counter::{Counter, DoubleEndedDuration};
use porsmo::display::Color;
use porsmo::input::Command;
use porsmo::pomodoro::pomomode::PomodoroMode;
use porsmo::pomodoro::pomosession::PomodoroSession;
use porsmo::pomodoro::{PomoConfig, PomoState, PomoStateMode};
use porsmo::time::Duration;
use std::time::Instant;

fn secs(n: u64) -> Duration {
    Duration::from_secs(n)
}

fn config() -> PomoConfig {
    PomoConfig::new(secs(5), secs(2), secs(3))
}

fn running(state: &PomoState) -> Counter {
    match state.mode {
        PomoStateMode::Running { counter } => counter,
        PomoStateMode::Skip { .. } => panic!("the skip prompt is open"),
    }
}

fn frozen(state: &PomoState) -> Duration {
    match state.mode {
        PomoStateMode::Skip { elapsed } => elapsed,
        PomoStateMode::Running { .. } => panic!("the phase is being counted"),
    }
}

fn fresh() -> PomoState {
    PomoState {
        mode: PomoStateMode::Running { counter: Counter::new(Some(Instant::now()), Duration::zero()) },
        session: PomodoroSession::default(),
        config: config(),
        alert: false,
    }
}

fn lines(state: &PomoState, live: Duration) -> Vec<(String, Option<Color>)> {
    state.show_with(live).lines.into_iter().map(|line| (line.text, line.color)).collect()
}

#[test]
fn config_presets() {
    assert_eq!(PomoConfig::short(), PomoConfig::new(secs(25 * 60), secs(5 * 60), secs(10 * 60)));
    assert_eq!(PomoConfig::long(), PomoConfig::new(secs(55 * 60), secs(10 * 60), secs(20 * 60)));
    assert_eq!(PomoConfig::default(), PomoConfig::short());
    assert_eq!(PomodoroMode::default(), PomodoroMode::Work);
    assert_eq!(PomodoroMode::Work.current_target(&config()), secs(5));
    assert_eq!(PomodoroMode::Break.current_target(&config()), secs(2));
    assert_eq!(PomodoroMode::LongBreak.current_target(&config()), secs(3));
}

#[test]
fn the_cycle_has_a_long_break_after_four_work_phases() {
    let mut session = PomodoroSession::default();
    assert_eq!(session, PomodoroSession { mode: PomodoroMode::Work, number: 1 });
    let expected = [
        (PomodoroMode::Break, 1),
        (PomodoroMode::Work, 2),
        (PomodoroMode::Break, 2),
        (PomodoroMode::Work, 3),
        (PomodoroMode::Break, 3),
        (PomodoroMode::Work, 4),
        (PomodoroMode::LongBreak, 4),
        (PomodoroMode::Work, 5),
        (PomodoroMode::Break, 5),
    ];
    for (mode, number) in expected.iter() {
        session = session.next();
        assert_eq!(session, PomodoroSession { mode: *mode, number: *number });
    }
}

#[test]
fn round_zero_has_no_long_break_and_the_count_stops_at_the_top() {
    let zero = PomodoroSession { mode: PomodoroMode::Work, number: 0 };
    assert_eq!(zero.next(), PomodoroSession { mode: PomodoroMode::Break, number: 0 });
    let eight = PomodoroSession { mode: PomodoroMode::Work, number: 8 };
    assert_eq!(eight.next().mode, PomodoroMode::LongBreak);
    let top = PomodoroSession { mode: PomodoroMode::LongBreak, number: u32::MAX };
    assert_eq!(top.next(), PomodoroSession { mode: PomodoroMode::Work, number: u32::MAX });
}

#[test]
fn a_new_state_counts_the_first_work_phase() {
    let state = PomoState::from(config());
    assert_eq!(state.config, config());
    assert_eq!(state.session, PomodoroSession::default());
    assert!(!state.alert);
    assert!(running(&state).started());
    assert_eq!(running(&state).elapsed, Duration::zero());
    assert_eq!(state.target(), secs(5));
    let preset = PomoState::default();
    assert_eq!(preset.config, PomoConfig::short());
}

#[test]
fn pause_resume_and_toggle_move_the_counter() {
    let now = Instant::now();
    let state = fresh();
    let paused = state.handle_command_with(Command::Pause, now, secs(2)).unwrap();
    assert!(running(&paused).stopped());
    assert_eq!(running(&paused).elapsed, secs(2));
    let still = paused.handle_command_with(Command::Pause, now, secs(9)).unwrap();
    assert_eq!(running(&still).elapsed, secs(2));
    let resumed = paused.handle_command_with(Command::Resume, now, secs(9)).unwrap();
    assert_eq!(running(&resumed).start, Some(now));
    assert_eq!(running(&resumed).elapsed, secs(2));
    let toggled = resumed.handle_command_with(Command::Toggle, now, secs(1)).unwrap();
    assert!(running(&toggled).stopped());
    assert_eq!(running(&toggled).elapsed, secs(3));
    let back = toggled.handle_command_with(Command::Toggle, now, secs(1)).unwrap();
    assert!(running(&back).started());
    assert_eq!(back.session, state.session);
    assert_eq!(back.elapsed_after(secs(1)), secs(4));
}

#[test]
fn enter_before_the_target_changes_nothing() {
    let now = Instant::now();
    let state = fresh();
    let same = state.handle_command_with(Command::Enter, now, secs(4)).unwrap();
    assert_eq!(same.session, state.session);
    assert_eq!(running(&same).start, running(&state).start);
    assert_eq!(running(&same).elapsed, Duration::zero());
}

#[test]
fn enter_at_the_target_starts_the_next_phase() {
    let now = Instant::now();
    let mut state = fresh();
    state.alert = true;
    let next = state.handle_command_with(Command::Enter, now, secs(5)).unwrap();
    assert_eq!(next.session, PomodoroSession { mode: PomodoroMode::Break, number: 1 });
    assert!(!next.alert);
    assert_eq!(running(&next).start, Some(now));
    assert_eq!(running(&next).elapsed, Duration::zero());
    assert_eq!(next.target(), secs(2));
}

#[test]
fn commands_without_meaning_change_nothing() {
    let now = Instant::now();
    let state = fresh();
    for command in [Command::Yes, Command::No, Command::Invalid] {
        let same = state.handle_command_with(command, now, secs(1)).unwrap();
        assert_eq!(running(&same).start, running(&state).start);
        assert_eq!(running(&same).elapsed, running(&state).elapsed);
        assert_eq!(same.session, state.session);
        assert_eq!(same.alert, state.alert);
    }
    let prompt = state.handle_command_with(Command::Skip, now, secs(1)).unwrap();
    for command in [Command::Pause, Command::Resume, Command::Toggle, Command::Skip, Command::Invalid]
    {
        let same = prompt.handle_command_with(command, now, secs(1)).unwrap();
        assert_eq!(frozen(&same), secs(1));
        assert_eq!(same.session, state.session);
    }
}

#[test]
fn quit_ends_a_counting_pomodoro_and_cancels_the_prompt() {
    let now = Instant::now();
    let state = fresh();
    assert!(state.handle_command_with(Command::Quit, now, secs(1)).is_none());
    assert!(state.handle_command(Command::Quit).is_none());
    let prompt = state.handle_command_with(Command::Skip, now, secs(1)).unwrap();
    let back = prompt.handle_command_with(Command::Quit, now, secs(1)).unwrap();
    assert!(running(&back).started());
    assert_eq!(running(&back).elapsed, secs(1));
}

#[test]
fn skip_then_no_keeps_the_time() {
    let now = Instant::now();
    let later = now + std::time::Duration::from_secs(60);
    let state = fresh().handle_command_with(Command::Pause, now, secs(1)).unwrap();
    let state = state.handle_command_with(Command::Resume, now, secs(0)).unwrap();
    let prompt = state.handle_command_with(Command::Skip, now, secs(2)).unwrap();
    assert_eq!(frozen(&prompt), secs(3));
    assert_eq!(prompt.elapsed_after(secs(60)), secs(3));
    assert_eq!(prompt.elpased(), secs(3));
    let back = prompt.handle_command_with(Command::No, later, secs(60)).unwrap();
    assert_eq!(running(&back).start, Some(later));
    assert_eq!(running(&back).elapsed, secs(3));
    assert_eq!(back.elapsed_after(Duration::zero()), secs(3));
    assert_eq!(back.session, state.session);
    assert_eq!(back.alert, state.alert);
}

#[test]
fn skip_then_yes_starts_the_next_phase() {
    let now = Instant::now();
    let mut state = fresh();
    state.alert = true;
    let prompt = state.handle_command_with(Command::Skip, now, secs(1)).unwrap();
    assert!(prompt.alert);
    for command in [Command::Yes, Command::Enter] {
        let next = prompt.handle_command_with(command, now, secs(1)).unwrap();
        assert_eq!(next.session, PomodoroSession { mode: PomodoroMode::Break, number: 1 });
        assert!(!next.alert);
        assert_eq!(running(&next).elapsed, Duration::zero());
        assert!(running(&next).started());
    }
}

#[test]
fn the_end_of_a_phase_is_announced_once() {
    let now = Instant::now();
    let mut state = fresh();
    assert_eq!(state.poll_alert_after(secs(4)), None);
    assert!(!state.alerted());
    assert_eq!(
        state.poll_alert_after(secs(5)),
        Some(("Pomodoro ended!", "Time for a short break"))
    );
    assert!(state.alerted());
    for live in [5u64, 6, 7, 100] {
        assert_eq!(state.poll_alert_after(secs(live)), None);
        assert!(state.alerted());
    }
    let paused = state.handle_command_with(Command::Pause, now, secs(6)).unwrap();
    assert!(paused.alert);
    let mut next = paused.handle_command_with(Command::Enter, now, secs(0)).unwrap();
    assert!(!next.alert);
    assert_eq!(next.poll_alert_after(secs(1)), None);
    assert_eq!(next.poll_alert_after(secs(2)), Some(("Your break ended!", "Time for some work")));
    assert_eq!(next.poll_alert_after(secs(3)), None);
}

#[test]
fn the_latch_can_be_set_by_hand() {
    let mut state = fresh();
    assert!(!state.should_alert_after(secs(4)));
    assert!(state.should_alert_after(secs(5)));
    state.set_alert(true);
    assert!(state.alerted());
    assert_eq!(state.poll_alert_after(secs(10)), None);
    state.set_alert(false);
    assert!(state.poll_alert_after(secs(10)).is_some());
    let mut idle = fresh();
    assert!(!idle.should_alert());
    assert_eq!(idle.poll_alert(), None);
}

#[test]
fn one_second_over_then_confirm() {
    let now = Instant::now();
    let mut state = fresh();
    assert_eq!(state.time_relation_after(secs(4)), DoubleEndedDuration::Positive(secs(1)));
    assert_eq!(state.time_relation_after(secs(6)), DoubleEndedDuration::Negative(secs(1)));
    assert!(state.poll_alert_after(secs(6)).is_some());
    let next = state.handle_command_with(Command::Enter, now, secs(6)).unwrap();
    assert_eq!(next.session.mode, PomodoroMode::Break);
    assert_eq!(next.elapsed_after(Duration::zero()), Duration::zero());
    assert!(!next.alert);
    assert_eq!(next.time_relation_after(Duration::zero()), DoubleEndedDuration::Positive(secs(2)));
}

#[test]
fn titles_and_alert_words() {
    assert_eq!(PomoState::title(PomodoroMode::Work), "Pomodoro (Work)");
    assert_eq!(PomoState::title(PomodoroMode::Break), "Pomodoro (Break)");
    assert_eq!(PomoState::title(PomodoroMode::LongBreak), "Pomodoro (Long Break)");
    assert_eq!(PomoState::break_title(PomodoroMode::Work), "Break has ended! Start work?");
    assert_eq!(PomoState::break_title(PomodoroMode::Break), "Work has ended! Start break?");
    assert_eq!(
        PomoState::break_title(PomodoroMode::LongBreak),
        "Work has ended! Start a long break"
    );
    assert_eq!(
        PomoState::pomodoro_alert_message(PomodoroMode::Work),
        ("Your break ended!", "Time for some work")
    );
    assert_eq!(
        PomoState::pomodoro_alert_message(PomodoroMode::Break),
        ("Pomodoro ended!", "Time for a short break")
    );
    assert_eq!(
        PomoState::pomodoro_alert_message(PomodoroMode::LongBreak),
        ("Pomodoro 4 sessions complete!", "Time for a long break")
    );
}

#[test]
fn frames_of_a_pomodoro_state() {
    let now = Instant::now();
    let state = fresh();
    assert_eq!(
        lines(&state, secs(2)),
        vec![
            ("Pomodoro (Work)".to_string(), None),
            ("0h 0m 3s".to_string(), Some(Color::Green)),
            ("[Q]: quit, [Shift S]: Skip, [Space]: pause/resume".to_string(), None),
            ("Session: 1".to_string(), None),
        ]
    );
    let paused = state.handle_command_with(Command::Pause, now, secs(6)).unwrap();
    assert_eq!(
        lines(&paused, secs(50)),
        vec![
            ("Work has ended! Start break?".to_string(), None),
            ("+0h 0m 1s".to_string(), Some(Color::Red)),
            (
                "[Q]: quit, [Shift S]: Skip, [Space]: pause/resume, [Enter]: Next".to_string(),
                None
            ),
            ("Time for a short break".to_string(), None),
        ]
    );
    let prompt = state.handle_command_with(Command::Skip, now, secs(1)).unwrap();
    assert_eq!(
        lines(&prompt, secs(1)),
        vec![
            ("skip to break?".to_string(), Some(Color::Green)),
            ("Session: 1".to_string(), None),
            ("[Enter]: Yes, [Q/N]: No".to_string(), None),
        ]
    );
    let rest = prompt.handle_command_with(Command::Yes, now, secs(1)).unwrap();
    let asked = rest.handle_command_with(Command::Skip, now, secs(1)).unwrap();
    assert_eq!(lines(&asked, secs(0))[0], ("skip to work?".to_string(), Some(Color::Red)));
    assert_eq!(state.show().lines.len(), 4);
}
