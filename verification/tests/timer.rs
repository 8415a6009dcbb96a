use porsmo::alert::Alerter;
use porsmo::counter::{Counter, DoubleEndedDuration};
use porsmo::display::{running_color, Color, Frame};
use porsmo::input::Command;
use porsmo::stopwatch::{
    excess_counting_with, start_excess_counting, stopwatch_frame, ExcessStep, Stopwatch,
    StopwatchState, StopwatchUI,
};
use porsmo::time::Duration;
use porsmo::timer::{
    timer_alert_message, timer_show, timer_update, timer_update_with, TimerState, TimerUI,
};
use std::time::Instant;

fn secs(n: u64) -> Duration {
    Duration::from_secs(n)
}

fn texts(frame: Frame) -> Vec<(String, Option<Color>)> {
    frame.lines.into_iter().map(|line| (line.text, line.color)).collect()
}

#[test]
fn colours_follow_the_counter() {
    assert_eq!(running_color(true), Color::Green);
    assert_eq!(running_color(false), Color::Red);
}

#[test]
fn a_stopwatch_is_changed_in_place() {
    let now = Instant::now();
    let mut watch = Stopwatch::new(None, secs(3));
    assert!(!watch.started());
    assert_eq!(watch.elapsed(), secs(3));
    assert_eq!(watch.elapsed_after(secs(9)), secs(3));
    watch.start_at(now);
    assert!(watch.started());
    assert_eq!(watch.start_time, Some(now));
    watch.start_at(now + std::time::Duration::from_secs(1));
    assert_eq!(watch.start_time, Some(now));
    assert_eq!(watch.elapsed_after(secs(2)), secs(5));
    watch.stop_after(secs(2));
    assert_eq!(watch.start_time, None);
    assert_eq!(watch.elapsed_before, secs(5));
    watch.stop_after(secs(2));
    assert_eq!(watch.elapsed_before, secs(5));
    watch.toggle_with(now, secs(7));
    assert!(watch.started());
    assert_eq!(watch.elapsed_before, secs(5));
    watch.toggle_with(now, secs(7));
    assert!(!watch.started());
    assert_eq!(watch.elapsed_before, secs(12));
}

#[test]
fn a_stopwatch_by_the_clock() {
    let mut watch = Stopwatch::default();
    assert!(watch.started());
    let first = watch.elapsed();
    let second = watch.elapsed();
    assert!(second >= first);
    watch.stop();
    assert!(!watch.started());
    let stopped = watch.elapsed();
    assert!(stopped >= second);
    assert_eq!(watch.elapsed(), stopped);
    watch.stop();
    assert_eq!(watch.elapsed(), stopped);
    watch.start();
    assert!(watch.started());
    assert_eq!(watch.elapsed_before, stopped);
    watch.toggle();
    assert!(!watch.started());
    watch.toggle();
    assert!(watch.started());
    watch.stop();
    assert_eq!(watch.live(), Duration::zero());
}

#[test]
fn the_stopwatch_programs_take_commands() {
    let now = Instant::now();
    let mut ui = StopwatchUI { stopwatch: Stopwatch::new(Some(now), Duration::zero()) };
    ui.update_with(Command::Pause, now, secs(1));
    assert_eq!(ui.stopwatch.elapsed_before, secs(1));
    assert!(!ui.stopwatch.started());
    ui.update_with(Command::Enter, now, secs(1));
    assert!(ui.stopwatch.started());
    ui.update_with(Command::Toggle, now, secs(1));
    assert_eq!(ui.stopwatch.elapsed_before, secs(2));
    ui.update_with(Command::Resume, now, secs(1));
    assert!(ui.stopwatch.started());
    for command in [Command::Quit, Command::Skip, Command::Yes, Command::No, Command::Invalid] {
        ui.update_with(command, now, secs(1));
        assert!(ui.stopwatch.started());
        assert_eq!(ui.stopwatch.elapsed_before, secs(2));
    }
    ui.update(Command::Pause);
    assert!(!ui.stopwatch.started());
    assert!(StopwatchUI::default().stopwatch.started());

    let state = StopwatchState::new_at(secs(10), now);
    assert_eq!(state.counter.start, Some(now));
    assert_eq!(state.counter.elapsed, secs(10));
    assert!(state.handle_command_with(Command::Quit, now, secs(1)).is_none());
    let paused = state.handle_command_with(Command::Pause, now, secs(1)).unwrap();
    assert_eq!(paused.counter.elapsed, secs(11));
    assert!(paused.counter.stopped());
    let resumed = paused.handle_command_with(Command::Toggle, now, secs(1)).unwrap();
    assert!(resumed.counter.started());
    let same = resumed.handle_command_with(Command::Skip, now, secs(1)).unwrap();
    assert_eq!(same.counter.elapsed, secs(11));
    assert!(StopwatchState::new(secs(1)).handle_command(Command::Quit).is_none());
    assert!(StopwatchState::new(secs(1)).handle_command(Command::Enter).unwrap().counter.stopped());
}

#[test]
fn counting_beyond_the_end_of_a_phase() {
    let now = Instant::now();
    let later = now + std::time::Duration::from_secs(9);
    let watch = Stopwatch::new(Some(now), secs(2));
    assert!(matches!(
        excess_counting_with(watch, Command::Quit, later, secs(3)),
        ExcessStep::Quit(time) if time == secs(5)
    ));
    assert!(matches!(
        excess_counting_with(watch, Command::Enter, later, secs(3)),
        ExcessStep::Next(time) if time == secs(5)
    ));
    assert!(matches!(
        excess_counting_with(watch, Command::Pause, later, secs(3)),
        ExcessStep::Counting(st) if !st.started() && st.elapsed_before == secs(5)
    ));
    assert!(matches!(
        excess_counting_with(watch, Command::Toggle, later, secs(3)),
        ExcessStep::Counting(st) if !st.started() && st.elapsed_before == secs(5)
    ));
    let paused = Stopwatch::new(None, secs(5));
    assert!(matches!(
        excess_counting_with(paused, Command::Resume, later, secs(3)),
        ExcessStep::Counting(st) if st.start_time == Some(later) && st.elapsed_before == secs(5)
    ));
    assert!(matches!(
        excess_counting_with(paused, Command::Toggle, later, secs(3)),
        ExcessStep::Counting(st) if st.start_time == Some(later)
    ));
    assert!(matches!(
        excess_counting_with(paused, Command::Enter, later, secs(3)),
        ExcessStep::Next(time) if time == secs(5)
    ));
    for command in [Command::Skip, Command::Yes, Command::No, Command::Invalid] {
        assert!(matches!(
            excess_counting_with(watch, command, later, secs(3)),
            ExcessStep::Counting(st) if st.start_time == Some(now) && st.elapsed_before == secs(2)
        ));
    }
    assert!(matches!(
        start_excess_counting(paused, Command::Quit),
        ExcessStep::Quit(time) if time == secs(5)
    ));
    assert!(matches!(
        start_excess_counting(paused, Command::Resume),
        ExcessStep::Counting(st) if st.started()
    ));
}

#[test]
fn frames_of_a_stopwatch() {
    let now = Instant::now();
    assert_eq!(
        texts(stopwatch_frame(secs(61), true)),
        vec![
            ("Stopwatch".to_string(), None),
            ("0h 1m 1s".to_string(), Some(Color::Green)),
            ("[Q]: quit, [Space]: pause/resume".to_string(), None),
        ]
    );
    let ui = StopwatchUI { stopwatch: Stopwatch::new(None, secs(5)) };
    assert_eq!(texts(ui.show_with(secs(9)))[1], ("0h 0m 5s".to_string(), Some(Color::Red)));
    assert_eq!(texts(ui.show())[1], ("0h 0m 5s".to_string(), Some(Color::Red)));
    let state = StopwatchState::new_at(secs(5), now);
    assert_eq!(texts(state.show_with(secs(9)))[1], ("0h 0m 14s".to_string(), Some(Color::Green)));
    assert_eq!(state.show().lines.len(), 3);
}

#[test]
fn frames_and_the_alert_of_a_timer() {
    let mut alerter = Alerter::default();
    let (frame, notice) = timer_show(secs(2), secs(5), true, &mut alerter);
    assert_eq!(notice, None);
    assert_eq!(alerter, Alerter(false));
    assert_eq!(
        texts(frame),
        vec![
            ("Timer".to_string(), None),
            ("0h 0m 3s".to_string(), Some(Color::Green)),
            ("[Q]: quit, [Space]: pause/resume".to_string(), None),
        ]
    );
    let (frame, notice) = timer_show(secs(5), secs(5), false, &mut alerter);
    assert_eq!(
        notice,
        Some(("The timer has ended!".to_string(), "Your Timer of 0h 0m 5s has ended".to_string()))
    );
    assert_eq!(alerter, Alerter(true));
    assert_eq!(
        texts(frame),
        vec![
            ("Timer has ended".to_string(), None),
            ("+0h 0m 0s".to_string(), Some(Color::Red)),
            ("[Q]: quit, [Space]: pause/resume".to_string(), None),
        ]
    );
    for elapsed in [5u64, 6, 7, 3600] {
        let (_, notice) = timer_show(secs(elapsed), secs(5), true, &mut alerter);
        assert_eq!(notice, None);
        assert_eq!(alerter, Alerter(true));
    }
    assert_eq!(timer_alert_message(secs(3723)), "Your Timer of 1h 2m 3s has ended");
}

#[test]
fn a_timer_in_place() {
    let now = Instant::now();
    let mut ui = TimerUI::new(secs(5));
    assert_eq!(ui.target, secs(5));
    assert_eq!(ui.alerter, Alerter(false));
    assert!(ui.stopwatch.started());
    ui.stopwatch = Stopwatch::new(Some(now), Duration::zero());
    assert_eq!(ui.time_relation_after(secs(4)), DoubleEndedDuration::Positive(secs(1)));
    assert_eq!(ui.time_relation_after(secs(6)), DoubleEndedDuration::Negative(secs(1)));
    assert_eq!(ui.show_with(secs(4)).1, None);
    assert!(ui.show_with(secs(6)).1.is_some());
    assert_eq!(ui.show_with(secs(7)).1, None);
    ui.update_with(Command::Pause, now, secs(8));
    assert_eq!(ui.stopwatch.elapsed_before, secs(8));
    assert_eq!(ui.alerter, Alerter(true));
    assert_eq!(ui.target, secs(5));
    ui.update_with(Command::Enter, now, secs(8));
    assert!(ui.stopwatch.started());
    ui.update(Command::Toggle);
    assert!(!ui.stopwatch.started());
    assert_eq!(ui.show().1, None);
    assert_eq!(TimerUI::default().target, Duration::zero());
    let mut watch = Stopwatch::new(Some(now), Duration::zero());
    timer_update_with(Command::Toggle, &mut watch, now, secs(3));
    assert_eq!(watch.elapsed_before, secs(3));
    timer_update(Command::Resume, &mut watch);
    assert!(watch.started());
    timer_update_with(Command::Quit, &mut watch, now, secs(3));
    assert!(watch.started());
}

#[test]
fn a_timer_state_takes_commands_and_alerts_once() {
    let now = Instant::now();
    let mut state = TimerState::new_at(secs(5), now);
    assert_eq!(state.counter.start, Some(now));
    assert_eq!(state.target, secs(5));
    assert!(!state.alerted());
    assert!(state.handle_command_with(Command::Quit, now, secs(1)).is_none());
    assert!(!state.should_alert_after(secs(4)));
    assert!(state.should_alert_after(secs(5)));
    assert_eq!(state.poll_alert_after(secs(4)), None);
    assert_eq!(
        state.poll_alert_after(secs(5)),
        Some(("The timer has ended!".to_string(), "Your Timer of 0h 0m 5s has ended".to_string()))
    );
    assert!(state.alerted());
    assert_eq!(state.poll_alert_after(secs(6)), None);
    let paused = state.handle_command_with(Command::Pause, now, secs(6)).unwrap();
    assert!(paused.alert);
    assert_eq!(paused.counter.elapsed, secs(6));
    let toggled = paused.handle_command_with(Command::Enter, now, secs(6)).unwrap();
    assert!(toggled.counter.started());
    let same = toggled.handle_command_with(Command::Skip, now, secs(6)).unwrap();
    assert_eq!(same.counter.elapsed, secs(6));
    state.set_alert(false);
    assert!(state.poll_alert_after(secs(9)).is_some());
    let mut idle = TimerState::new(secs(3600));
    assert!(!idle.should_alert());
    assert_eq!(idle.poll_alert(), None);
    assert!(idle.handle_command(Command::Quit).is_none());
    assert!(idle.handle_command(Command::Pause).unwrap().counter.stopped());
    assert_eq!(
        texts(TimerState { counter: Counter::from(secs(2)), target: secs(5), alert: false }.show()),
        vec![
            ("Timer".to_string(), None),
            ("0h 0m 3s".to_string(), Some(Color::Red)),
            ("[Q]: quit, [Space]: pause/resume".to_string(), None),
        ]
    );
    assert_eq!(
        texts(paused.show_with(secs(0)))[1],
        ("+0h 0m 1s".to_string(), Some(Color::Red))
    );
}
