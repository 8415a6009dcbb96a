use porsmo::alert::Alerter;
use porsmo::counter::Counter;
use porsmo::input::Command;
use porsmo::pomodoro::{PomoConfig, PomoState, PomodoroConfig, PomodoroUI, UIMode};
use porsmo::stopwatch::{Stopwatch, StopwatchState, StopwatchUI};
use porsmo::time::Duration;
use porsmo::timer::{TimerState, TimerUI};
use porsmo::ui::{run_alerted, Alertable, CounterUI, CounterUIState, PorsmoUI};
use std::time::Instant;

fn secs(n: u64) -> Duration {
    Duration::from_secs(n)
}

#[test]
fn quit_ends_what_is_on_the_screen() {
    let now = Instant::now();
    let timer = PorsmoUI::timer(secs(5));
    assert!(!timer.ended());
    assert!(timer.handle_command_with(Command::Quit, now, secs(1)).ended());
    assert!(timer.handle_command(Command::Quit).ended());
    let pomo = PorsmoUI::pomodoro(PomodoroConfig::new(secs(5), secs(2), secs(3)));
    assert!(!pomo.ended());
    assert!(pomo.handle_command_with(Command::Quit, now, secs(1)).ended());
    let asked = pomo.handle_command_with(Command::Skip, now, secs(1));
    let back = asked.handle_command_with(Command::Quit, now, secs(1));
    assert!(!back.ended());
    assert!(matches!(back, PorsmoUI::Pomodoro(ui) if matches!(ui.ui_mode, UIMode::Running(_))));
    let ended = PorsmoUI::Ended;
    for command in [Command::Quit, Command::Toggle, Command::Enter, Command::Skip, Command::Yes] {
        assert!(ended.handle_command_with(command, now, secs(1)).ended());
    }
}

#[test]
fn commands_go_to_the_timer_or_to_the_pomodoro() {
    let now = Instant::now();
    let timer = PorsmoUI::timer(secs(5)).handle_command_with(Command::Pause, now, secs(2));
    assert!(
        matches!(timer, PorsmoUI::Timer(ui) if ui.stopwatch.elapsed_before == secs(2) && !ui.stopwatch.started())
    );
    let pomo = PorsmoUI::pomodoro(PomodoroConfig::new(secs(5), secs(2), secs(3)))
        .handle_command_with(Command::Skip, now, secs(2));
    assert!(
        matches!(pomo, PorsmoUI::Pomodoro(ui) if matches!(ui.ui_mode, UIMode::Skip(elapsed) if elapsed == secs(2)))
    );
    let toggled = PorsmoUI::timer(secs(5)).handle_command(Command::Toggle);
    assert!(matches!(toggled, PorsmoUI::Timer(ui) if !ui.stopwatch.started()));
}

#[test]
fn the_screen_is_shown_with_its_alert() {
    let now = Instant::now();
    let mut timer = PorsmoUI::Timer(TimerUI {
        stopwatch: Stopwatch::new(Some(now), Duration::zero()),
        target: secs(5),
        alerter: Alerter::default(),
    });
    let (frame, notice) = timer.show_with(secs(1));
    assert_eq!(frame.lines[0].text, "Timer");
    assert_eq!(notice, None);
    let (frame, notice) = timer.show_with(secs(5));
    assert_eq!(frame.lines[0].text, "Timer has ended");
    assert_eq!(frame.lines[1].text, "+0h 0m 0s");
    assert!(notice.is_some());
    assert!(matches!(timer, PorsmoUI::Timer(ui) if ui.alerter == Alerter(true)));
    assert_eq!(timer.show_with(secs(6)).1, None);
    assert_eq!(
        notice,
        Some(("The timer has ended!".to_string(), "Your Timer of 0h 0m 5s has ended".to_string()))
    );
    let mut pomo = PorsmoUI::pomodoro(PomodoroConfig::new(secs(5), secs(2), secs(3)));
    let (frame, notice) = pomo.show_with(secs(5));
    assert_eq!(frame.lines[0].text, "Work has ended! Start break?");
    assert_eq!(
        notice,
        Some(("Pomodoro ended!".to_string(), "Time for a short break".to_string()))
    );
    assert_eq!(pomo.show_with(secs(5)).1, None);
    assert_eq!(pomo.show().0.lines.len(), 4);
    let mut ended = PorsmoUI::Ended;
    let (frame, notice) = ended.show_with(secs(5));
    assert!(frame.lines.is_empty());
    assert_eq!(notice, None);
    assert!(ended.ended());
    assert_eq!(ended.live(), Duration::zero());
}

fn run<U: CounterUI>(mut ui: U, commands: &[Command]) -> (usize, String) {
    let mut alerts = 0;
    for command in commands.iter() {
        if ui.show().1.is_some() {
            alerts += 1;
        }
        ui.update(*command);
    }
    (alerts, ui.run_ui())
}

#[test]
fn counters_in_place_behind_one_trait() {
    let commands = [Command::Pause, Command::Toggle, Command::Enter, Command::Invalid];
    assert_eq!(run(StopwatchUI::default(), &commands), (0, String::new()));
    assert_eq!(run(TimerUI::new(secs(3600)), &commands), (0, String::new()));
    assert_eq!(run(TimerUI::new(Duration::zero()), &commands), (1, String::new()));
    let (alerts, farewell) =
        run(PomodoroUI::new(PomodoroConfig::new(Duration::zero(), secs(900), secs(900))), &commands);
    assert_eq!(alerts, 1);
    assert_eq!(farewell, "You have spent 0h 0m 0s working and 0h 0m 0s on break. Well done!");
}

fn drive<S: CounterUIState>(state: S, commands: &[Command]) -> Option<S> {
    let mut state = state;
    for command in commands.iter() {
        assert!(!state.show().lines.is_empty());
        state = state.handle_command(*command)?;
    }
    Some(state)
}

#[test]
fn states_behind_one_trait() {
    let stay = [Command::Pause, Command::Resume, Command::Toggle, Command::Invalid];
    let leave = [Command::Pause, Command::Quit, Command::Toggle];
    assert!(drive(StopwatchState::new(secs(1)), &stay).unwrap().counter.stopped());
    assert!(drive(StopwatchState::new(secs(1)), &leave).is_none());
    assert!(drive(TimerState::new(secs(1)), &stay).unwrap().counter.stopped());
    assert!(drive(TimerState::new(secs(1)), &leave).is_none());
    assert!(drive(PomoState::from(PomoConfig::short()), &stay).is_some());
    assert!(drive(PomoState::from(PomoConfig::short()), &leave).is_none());
    let cancel = [Command::Skip, Command::Quit, Command::Pause];
    assert!(drive(PomoState::from(PomoConfig::short()), &cancel).is_some());
}

#[test]
fn states_announce_their_end_once() {
    let mut timer =
        TimerState { counter: Counter::from(secs(9)), target: secs(5), alert: false };
    assert!(Alertable::should_alert(&timer));
    assert_eq!(
        run_alerted(&mut timer),
        Some(("The timer has ended!".to_string(), "Your Timer of 0h 0m 5s has ended".to_string()))
    );
    assert!(Alertable::alerted(&timer));
    assert_eq!(run_alerted(&mut timer), None);
    assert_eq!(run_alerted(&mut timer), None);
    Alertable::set_alert(&mut timer, false);
    assert!(run_alerted(&mut timer).is_some());
    let mut early = TimerState { counter: Counter::from(secs(4)), target: secs(5), alert: false };
    assert_eq!(run_alerted(&mut early), None);
    assert!(!early.alert);
    assert_eq!(
        Alertable::alert(&mut early),
        ("The timer has ended!".to_string(), "Your Timer of 0h 0m 5s has ended".to_string())
    );
    assert!(!early.alert);

    let mut pomo = PomoState::from(PomoConfig::new(Duration::zero(), secs(2), secs(3)));
    assert_eq!(
        run_alerted(&mut pomo),
        Some(("Pomodoro ended!".to_string(), "Time for a short break".to_string()))
    );
    assert_eq!(run_alerted(&mut pomo), None);
    let mut next = pomo.handle_command(Command::Enter).unwrap();
    assert!(!Alertable::alerted(&next));
    assert_eq!(run_alerted(&mut next), None);
}
