use porsmo::display::Color;
use porsmo::helpers::format::fmt_time;
use porsmo::pausable::counter::{Counter, Pausable, Reset, Status, TimeCount};
use porsmo::pausable::panel::{seconds_of, Porsmo, Press};
use porsmo::pausable::pomodoro::{leap_session, Mode, PomoMode, PomoSettings, Pomodoro};
use porsmo::pausable::term::{
    get_pomo_title, get_rest_title, get_skip_prompt, listen_command, stopwatch, timer,
    timer_tick, Command, Key, KeyedPomodoro,
};
use porsmo::pausable::timer::{CheckedCount, CountType, Extended, HasEnd, Timer};
use porsmo::time::Duration;
use std::time::Instant;

fn secs(n: u64) -> Duration {
    Duration::from_secs(n)
}

#[test]
fn clock_format_of_a_span() {
    assert_eq!(fmt_time(Duration::zero()), "00");
    assert_eq!(fmt_time(secs(5)), "05");
    assert_eq!(fmt_time(secs(59)), "59");
    assert_eq!(fmt_time(secs(60)), "01:00");
    assert_eq!(fmt_time(secs(61)), "01:01");
    assert_eq!(fmt_time(secs(3599)), "59:59");
    assert_eq!(fmt_time(secs(3600)), "01:00:00");
    assert_eq!(fmt_time(secs(3723)), "01:02:03");
    assert_eq!(fmt_time(secs(86399)), "23:59:59");
    assert_eq!(fmt_time(secs(86400)), "1days 00:00:00");
    assert_eq!(fmt_time(secs(12 * 86400 + 3723)), "12days 01:02:03");
    assert_eq!(fmt_time(Duration::from_millis(12)), "00.012");
    assert_eq!(fmt_time(Duration::from_millis(120)), "00.120");
    assert_eq!(fmt_time(Duration::from_millis(61_005)), "01:01.005");
    assert_eq!(fmt_time(Duration::from_nanos(999_999)), "00");
}

#[test]
fn a_time_count_is_paused_and_resumed() {
    let now = Instant::now();
    let later = now + std::time::Duration::from_secs(10);
    let mut count = TimeCount::new_at(secs(5), now);
    assert_eq!(count.status, Status::Running);
    assert!(count.is_running());
    assert!(!count.is_paused());
    assert_eq!(count.counter_after(secs(2)), secs(7));
    count.pause_after(secs(2));
    assert!(count.is_paused());
    assert_eq!(count.elapsed, secs(7));
    assert_eq!(count.counter_at(), secs(7));
    count.pause_after(secs(2));
    assert_eq!(count.elapsed, secs(7));
    count.resume_at(later);
    assert!(count.is_running());
    assert_eq!(count.started, later);
    assert_eq!(count.counter_after(Duration::zero()), secs(7));
    count.resume_at(now);
    assert_eq!(count.started, later);
    count.toggle_with(now, secs(1));
    assert!(count.is_paused());
    assert_eq!(count.elapsed, secs(8));
    count.toggle_with(now, secs(1));
    assert!(count.is_running());
    count.reset_at(later);
    assert_eq!(count.elapsed, Duration::zero());
    assert_eq!(count.started, later);
    assert!(count.is_running());
    assert_eq!(Status::default(), Status::Running);
}

#[test]
fn a_time_count_by_the_clock() {
    let mut count = TimeCount::new(secs(5));
    assert!(count.counter_at() >= secs(5));
    count.pause();
    assert!(count.is_paused());
    let paused = count.counter_at();
    assert_eq!(count.counter_at(), paused);
    count.resume();
    assert!(count.is_running());
    assert!(count.counter_at() >= paused);
    count.toggle();
    assert!(count.is_paused());
    count.toggle();
    assert!(count.is_running());
    count.reset();
    assert!(count.counter_at() < secs(5));
    assert!(TimeCount::default().is_running());
}

#[test]
fn a_timer_counts_down_and_beyond() {
    let now = Instant::now();
    let mut timer = Timer::new_at(secs(5), now);
    assert_eq!(timer.target, secs(5));
    assert!(!timer.has_ended_after(secs(4)));
    assert!(timer.has_ended_after(secs(5)));
    assert_eq!(timer.counter_after(secs(2)), secs(3));
    assert_eq!(timer.counter_after(secs(7)), Duration::zero());
    assert_eq!(timer.extended_after(secs(2)), Duration::zero());
    assert_eq!(timer.extended_after(secs(7)), secs(2));
    assert_eq!(timer.checked_counter_after(secs(2)), CountType::Count(secs(3)));
    assert_eq!(timer.checked_counter_after(secs(5)), CountType::Exceed(Duration::zero()));
    assert_eq!(timer.checked_counter_after(secs(7)), CountType::Exceed(secs(2)));
    timer.pause();
    assert!(timer.is_paused());
    assert!(!timer.has_ended());
    assert!(timer.counter_at() <= secs(5));
    assert_eq!(timer.extended_at(), Duration::zero());
    assert!(matches!(timer.checked_counter_at(), CountType::Count(_)));
    timer.resume();
    assert!(timer.is_running());
    timer.toggle();
    assert!(timer.is_paused());
    timer.reset();
    assert_eq!(timer.counter_at(), secs(5));
    assert!(Timer::new(secs(1)).is_running());
}

#[test]
fn a_pomodoro_goes_through_its_phases() {
    let now = Instant::now();
    let mut pomo = Pomodoro::new_at(secs(5), secs(2), secs(3), now);
    assert_eq!(pomo.options, PomoSettings::new(secs(5), secs(2), secs(3)));
    assert_eq!(*pomo.mode(), Mode::Work);
    assert_eq!(pomo.session(), 1);
    assert_eq!(pomo.counter.target, secs(5));
    let expected = [
        (Mode::Rest, 1u64, 2u64),
        (Mode::Work, 2, 5),
        (Mode::Rest, 2, 2),
        (Mode::Work, 3, 5),
        (Mode::Rest, 3, 2),
        (Mode::Work, 4, 5),
        (Mode::LongRest, 4, 3),
        (Mode::Work, 5, 5),
        (Mode::Rest, 5, 2),
    ];
    for (mode, session, target) in expected.iter() {
        assert_eq!(pomo.check_next_mode(), *mode);
        pomo.next_mode_at(now);
        assert_eq!(*pomo.mode(), *mode);
        assert_eq!(pomo.session(), *session);
        assert_eq!(pomo.counter.target, secs(*target));
        assert_eq!(pomo.counter.counter.elapsed, Duration::zero());
        assert!(pomo.is_running());
    }
    assert!(!leap_session(0));
    assert!(leap_session(4));
    assert!(!leap_session(5));
    assert!(leap_session(8));
    assert_eq!(
        PomoSettings::default(),
        PomoSettings::new(secs(25 * 60), secs(5 * 60), secs(10 * 60))
    );
}

#[test]
fn a_pomodoro_by_the_clock() {
    let mut pomo = Pomodoro::new(secs(500), secs(2), secs(3));
    assert!(pomo.is_running());
    assert!(!pomo.has_ended());
    assert!(pomo.counter_at() <= secs(500));
    assert!(matches!(pomo.checked_counter_at(), CountType::Count(_)));
    pomo.pause();
    assert!(pomo.is_paused());
    pomo.resume();
    assert!(pomo.is_running());
    pomo.toggle();
    assert!(pomo.is_paused());
    pomo.reset();
    assert_eq!(pomo.counter_at(), secs(500));
    assert_eq!(pomo.session(), 1);
    pomo.next_mode();
    assert_eq!(*pomo.mode(), Mode::Rest);
    assert_eq!(pomo.session(), 1);
    assert!(pomo.is_running());
    let mut top = pomo;
    top.session = u64::MAX;
    top.next_mode();
    assert_eq!(top.session(), u64::MAX);
}

#[test]
fn the_panel_shows_the_time_and_alerts_once() {
    let now = Instant::now();
    let mut panel =
        Porsmo { pomo: Pomodoro::new_at(secs(65), secs(2), secs(3), now), alerted: false };
    let (view, notice) = panel.view_with(secs(3));
    assert_eq!(notice, None);
    assert!(!view.dark);
    assert_eq!(view.heading, "1m 2s");
    assert!(!view.red);
    assert_eq!(view.toggle_label, "Pause");
    assert!(!panel.has_alerted());
    let (view, notice) = panel.view_with(secs(66));
    assert_eq!(
        notice,
        Some(("Pomodoro ended!".to_string(), "Time for a short break".to_string()))
    );
    assert!(view.dark);
    assert_eq!(view.heading, "+1s");
    assert!(panel.has_alerted());
    assert_eq!(panel.view_with(secs(67)).1, None);
    assert_eq!(panel.view_with(secs(6700)).1, None);
    panel.press_with(Press::Toggle, now, secs(70));
    assert!(panel.has_alerted());
    let (view, _) = panel.view_with(secs(0));
    assert!(view.red);
    assert_eq!(view.toggle_label, "Resume");
    assert_eq!(view.heading, "+5s");
    panel.press_with(Press::Enter, now, secs(0));
    assert!(!panel.has_alerted());
    assert_eq!(*panel.pomo.mode(), Mode::Rest);
    assert_eq!(seconds_of(secs(7)), 7);
    assert_eq!(seconds_of(Duration::from_nanos(u128::MAX)), u64::MAX);
    assert_eq!(Porsmo::NAME, "Porsmo");
}

#[test]
fn presses_on_the_panel() {
    let now = Instant::now();
    let mut panel =
        Porsmo { pomo: Pomodoro::new_at(secs(65), secs(2), secs(3), now), alerted: true };
    panel.press_with(Press::Space, now, secs(1));
    assert!(panel.pomo.is_paused());
    assert_eq!(panel.pomo.counter.counter.elapsed, secs(1));
    panel.press_with(Press::Enter, now, secs(0));
    assert!(panel.pomo.is_running());
    assert_eq!(*panel.pomo.mode(), Mode::Work);
    assert!(panel.alerted);
    panel.press_with(Press::Reset, now, secs(9));
    assert!(!panel.alerted);
    assert_eq!(panel.pomo.counter.counter.elapsed, Duration::zero());
    assert_eq!(panel.pomo.counter.target, secs(65));
    panel.alerted = true;
    panel.press_with(Press::StartNext, now, secs(9));
    assert!(!panel.alerted);
    assert_eq!(*panel.pomo.mode(), Mode::Rest);
    assert_eq!(panel.pomo.counter.target, secs(2));
    let notice = panel.alert();
    assert_eq!(notice, ("Your break ended!".to_string(), "Time for some work".to_string()));
    assert!(panel.has_alerted());
    panel.reset();
    assert!(!panel.has_alerted());
    panel.alerted = true;
    panel.reset_timer();
    assert!(!panel.has_alerted());
    panel.press(Press::Toggle);
    assert!(panel.pomo.is_paused());
    let preset = Porsmo::default();
    assert_eq!(preset.pomo.session(), 1);
    assert_eq!(preset.pomo.counter.target, secs(25 * 60));
    assert!(!preset.alerted);
}

#[test]
fn single_keys_stand_for_commands() {
    assert_eq!(listen_command(Key::Char('q')), Some(Command::Quit));
    assert_eq!(listen_command(Key::Ctrl('c')), Some(Command::Quit));
    assert_eq!(listen_command(Key::Ctrl('z')), Some(Command::Quit));
    assert_eq!(listen_command(Key::Char('S')), Some(Command::Skip));
    assert_eq!(listen_command(Key::Char('y')), Some(Command::Yes));
    assert_eq!(listen_command(Key::Char('n')), Some(Command::No));
    assert_eq!(listen_command(Key::Ctrl('r')), Some(Command::Reset));
    assert_eq!(listen_command(Key::Char('\n')), Some(Command::Enter));
    assert_eq!(listen_command(Key::Char(' ')), Some(Command::Space));
    assert_eq!(listen_command(Key::Char('x')), None);
    assert_eq!(listen_command(Key::Ctrl('q')), None);
    assert_eq!(listen_command(Key::Char('r')), None);
    assert_eq!(listen_command(Key::Other), None);
}

#[test]
fn titles_of_the_keyed_pomodoro() {
    assert_eq!(get_pomo_title(Mode::Work), "pomodoro (work)");
    assert_eq!(get_pomo_title(Mode::Rest), "pomodoro (break)");
    assert_eq!(get_pomo_title(Mode::LongRest), "pomodoro (long break)");
    assert_eq!(get_rest_title(Mode::Work), "Time for some break!");
    assert_eq!(get_rest_title(Mode::Rest), "Time to get back to work");
    assert_eq!(get_rest_title(Mode::LongRest), "Your break has ended!");
    assert_eq!(get_skip_prompt(Mode::Work), ("Skip to work?", Color::Red));
    assert_eq!(get_skip_prompt(Mode::Rest), ("Skip to break?", Color::Green));
    assert_eq!(get_skip_prompt(Mode::LongRest), ("Skip to a long break?", Color::Green));
}

#[test]
fn the_keyed_pomodoro_takes_commands() {
    let now = Instant::now();
    let later = now + std::time::Duration::from_secs(10);
    let keyed =
        KeyedPomodoro { counter: Pomodoro::new_at(secs(65), secs(2), secs(3), now), prompt: false };
    assert!(keyed.pomodoro_with(Command::Quit, now, secs(1)).is_none());
    assert!(keyed.pomodoro(Command::Quit).is_none());
    let paused = keyed.pomodoro_with(Command::Space, now, secs(1)).unwrap();
    assert!(paused.counter.is_paused());
    assert_eq!(paused.counter.counter.counter.elapsed, secs(1));
    let resumed = paused.pomodoro_with(Command::Enter, later, secs(0)).unwrap();
    assert!(resumed.counter.is_running());
    assert_eq!(*resumed.counter.mode(), Mode::Work);
    let next = resumed.pomodoro_with(Command::Enter, later, secs(64)).unwrap();
    assert_eq!(*next.counter.mode(), Mode::Rest);
    for command in [Command::Reset, Command::Yes, Command::No] {
        let same = keyed.pomodoro_with(command, now, secs(1)).unwrap();
        assert!(!same.prompt);
        assert!(same.counter.is_running());
        assert_eq!(same.counter.counter.counter.elapsed, Duration::zero());
    }
    let asked = resumed.pomodoro_with(Command::Skip, later, secs(4)).unwrap();
    assert!(asked.prompt);
    assert!(asked.counter.is_paused());
    assert_eq!(asked.counter.counter.counter.elapsed, secs(5));
    let kept = asked.pomodoro_with(Command::Quit, later, secs(99)).unwrap();
    assert!(!kept.prompt);
    assert!(kept.counter.is_running());
    assert_eq!(kept.counter.counter.counter.counter_after(Duration::zero()), secs(5));
    assert_eq!(*kept.counter.mode(), Mode::Work);
    let ignored = asked.pomodoro_with(Command::Skip, later, secs(0)).unwrap();
    assert!(ignored.prompt);
    let back = asked.pomodoro_with(Command::No, later, secs(99)).unwrap();
    assert!(!back.prompt);
    assert!(back.counter.is_running());
    assert_eq!(back.counter.counter.counter.counter_after(Duration::zero()), secs(5));
    assert_eq!(*back.counter.mode(), Mode::Work);
    for command in [Command::Yes, Command::Enter, Command::Space] {
        let skipped = asked.pomodoro_with(command, later, secs(0)).unwrap();
        assert!(!skipped.prompt);
        assert_eq!(*skipped.counter.mode(), Mode::Rest);
        assert!(skipped.counter.is_running());
    }
    assert!(!KeyedPomodoro::new(secs(1), secs(2), secs(3)).prompt);
    assert_eq!(KeyedPomodoro::new(secs(1), secs(2), secs(3)).counter.session(), 1);
}

#[test]
fn the_screen_of_the_keyed_pomodoro() {
    let now = Instant::now();
    let keyed =
        KeyedPomodoro { counter: Pomodoro::new_at(secs(65), secs(2), secs(3), now), prompt: false };
    let screen = keyed.screen_with(secs(3));
    assert_eq!(screen.title, "pomodoro (work)");
    assert_eq!(screen.count, Some("01:02".to_string()));
    assert!(screen.running);
    assert_eq!(screen.control, "[Q]: Quit, [Space]: pause/resume");
    assert_eq!(screen.round, "Round: 1");
    let screen = keyed.screen_with(secs(66));
    assert_eq!(screen.title, "Time for some break!");
    assert_eq!(screen.count, Some("+01".to_string()));
    assert_eq!(screen.control, "[Q]: Quit, [Space]: pause/resume, [Enter]: next session");
    let asked = keyed.pomodoro_with(Command::Skip, now, secs(4)).unwrap();
    let screen = asked.screen_with(secs(0));
    assert_eq!(screen.title, "Skip to break?");
    assert_eq!(screen.count, None);
    assert!(!screen.running);
    assert_eq!(screen.control, "[Q]: Quit, [Y]: Yes, [N]: No");
}

#[test]
fn keyed_timer_and_stopwatch() {
    let now = Instant::now();
    let count = TimeCount::new_at(Duration::zero(), now);
    assert!(stopwatch(count, Command::Quit, now, secs(1)).is_none());
    let paused = stopwatch(count, Command::Space, now, secs(1)).unwrap();
    assert!(paused.is_paused());
    assert_eq!(paused.elapsed, secs(1));
    assert!(stopwatch(paused, Command::Enter, now, secs(1)).unwrap().is_running());
    assert!(stopwatch(paused, Command::Skip, now, secs(1)).unwrap().is_paused());
    let running = Timer::new_at(secs(5), now);
    let (next, alerted, send) = timer(running, false, Command::Quit, now, secs(1));
    assert!(next.is_none());
    assert!(!alerted);
    assert!(!send);
    let (next, alerted, send) = timer(running, false, Command::Space, now, secs(4));
    assert!(next.unwrap().is_paused());
    assert!(!alerted);
    assert!(!send);
    let (next, alerted, send) = timer(running, false, Command::Space, now, secs(5));
    assert_eq!(next.unwrap().counter.elapsed, secs(5));
    assert!(alerted);
    assert!(send);
    let (_, alerted, send) = timer(next.unwrap(), true, Command::Yes, now, secs(0));
    assert!(alerted);
    assert!(!send);
    let (next, alerted, send) = timer(running, false, Command::Yes, now, secs(6));
    assert!(next.unwrap().is_running());
    assert!(alerted);
    assert!(send);
    let (_, alerted, send) = timer(running, false, Command::No, now, secs(4));
    assert!(!alerted);
    assert!(!send);
    assert_eq!(timer_tick(&running, false, secs(4)), (false, false));
    assert_eq!(timer_tick(&running, false, secs(5)), (true, true));
    assert_eq!(timer_tick(&running, true, secs(5)), (true, false));
    assert_eq!(timer_tick(&running, true, secs(1)), (true, false));
}
