use porsmo::counter::{relate, Counter, DoubleEndedDuration};
use porsmo::time::Duration;
use std::time::Instant;

fn secs(n: u64) -> Duration {
    Duration::from_secs(n)
}

#[test]
fn duration_constructors_are_exact() {
    assert_eq!(Duration::zero().nanos, 0);
    assert_eq!(secs(1).nanos, 1_000_000_000);
    assert_eq!(Duration::from_millis(250).nanos, 250_000_000);
    assert_eq!(Duration::from_mins(25), secs(25 * 60));
    assert_eq!(Duration::from_nanos(7).as_nanos(), 7);
    assert_eq!(secs(u64::MAX).nanos, u64::MAX as u128 * 1_000_000_000);
    assert_eq!(Duration::from_millis(1999).as_secs(), 1);
    assert_eq!(Duration::from_millis(1999).as_millis(), 1999);
    assert!(Duration::zero().is_zero());
    assert!(!secs(1).is_zero());
    assert!(secs(1) < secs(2));
}

#[test]
fn duration_arithmetic_saturates() {
    assert_eq!(secs(2).saturating_add(secs(3)), secs(5));
    assert_eq!(secs(5).saturating_sub(secs(3)), secs(2));
    assert_eq!(secs(3).saturating_sub(secs(5)), Duration::zero());
    assert_eq!(secs(5).checked_sub(secs(3)), Some(secs(2)));
    assert_eq!(secs(5).checked_sub(secs(5)), Some(Duration::zero()));
    assert_eq!(secs(3).checked_sub(secs(5)), None);
    let max = Duration::from_nanos(u128::MAX);
    assert_eq!(max.saturating_add(secs(1)), max);
    assert_eq!(Duration::from_nanos(u128::MAX - 1).saturating_add(Duration::from_nanos(1)), max);
}

#[test]
fn new_counter_holds_its_parts() {
    let now = Instant::now();
    let c = Counter::new(Some(now), secs(3));
    assert_eq!(c.start, Some(now));
    assert_eq!(c.elapsed, secs(3));
    assert!(c.started());
    assert!(!c.stopped());
    let d = Counter::from(secs(4));
    assert_eq!(d.start, None);
    assert_eq!(d.elapsed, secs(4));
    assert!(d.stopped());
    let e = Counter::default();
    assert!(e.started());
    assert_eq!(e.elapsed, Duration::zero());
}

#[test]
fn start_twice_is_start_once() {
    let first = Instant::now();
    let second = first + std::time::Duration::from_secs(10);
    let once = Counter::from(secs(5)).start_at(first);
    let twice = once.start_at(second);
    assert_eq!(twice.start, Some(first));
    assert_eq!(twice.elapsed, secs(5));
    assert_eq!(twice.elapsed_after(secs(7)), once.elapsed_after(secs(7)));
    let by_clock = Counter::from(secs(5)).start();
    let again = by_clock.start();
    assert_eq!(again.start, by_clock.start);
    assert_eq!(again.elapsed, by_clock.elapsed);
}

#[test]
fn stop_twice_is_stop_once() {
    let c = Counter::new(Some(Instant::now()), secs(5)).stop_after(secs(2));
    assert_eq!(c.start, None);
    assert_eq!(c.elapsed, secs(7));
    let d = c.stop_after(secs(100));
    assert_eq!(d.start, None);
    assert_eq!(d.elapsed, secs(7));
    let e = d.stop();
    assert_eq!(e.elapsed, secs(7));
}

#[test]
fn starts_and_stops_add_up_the_running_intervals() {
    let now = Instant::now();
    let mut c = Counter::from(Duration::zero());
    let runs = [1u64, 2, 3, 4];
    for run in runs.iter() {
        c = c.start_at(now);
        c = c.start_at(now);
        c = c.stop_after(secs(*run));
        c = c.stop_after(secs(1000));
    }
    assert_eq!(c.elapsed, secs(10));
    assert_eq!(c.elapsed(), secs(10));
    let mut t = Counter::from(Duration::zero());
    for run in runs.iter() {
        t = t.toggle_with(now, secs(99));
        t = t.toggle_with(now, secs(*run));
    }
    assert_eq!(t.elapsed, secs(10));
    t = t.toggle_with(now, secs(99));
    assert_eq!(t.elapsed_after(secs(5)), secs(15));
}

#[test]
fn readings_do_not_go_back_while_running() {
    let c = Counter::new(Some(Instant::now()), secs(5));
    assert!(c.elapsed_after(secs(1)) <= c.elapsed_after(secs(2)));
    assert_eq!(c.elapsed_after(Duration::zero()), secs(5));
    let first = c.elapsed();
    let second = c.elapsed();
    assert!(second >= first);
    assert!(first >= secs(5));
}

#[test]
fn a_stopped_counter_does_not_move() {
    let c = Counter::from(secs(5));
    assert_eq!(c.elapsed_after(secs(100)), secs(5));
    assert_eq!(c.elapsed(), secs(5));
    assert_eq!(c.live(), Duration::zero());
    assert_eq!(c.saturating_time_left(secs(7)), secs(2));
    assert_eq!(c.checked_time_left(secs(7)), DoubleEndedDuration::Positive(secs(2)));
}

#[test]
fn the_clock_moves_a_running_counter() {
    let c = Counter::default();
    let began = Instant::now();
    while began.elapsed() < std::time::Duration::from_millis(20) {}
    let elapsed = c.elapsed();
    assert!(elapsed >= Duration::from_millis(20));
    assert!(elapsed < secs(10));
    let stopped = c.stop();
    assert!(stopped.stopped());
    assert!(stopped.elapsed >= elapsed);
    let toggled = stopped.toggle();
    assert!(toggled.started());
    assert_eq!(toggled.elapsed, stopped.elapsed);
    assert!(toggled.toggle().stopped());
}

#[test]
fn time_left_saturates_at_zero() {
    let c = Counter::new(Some(Instant::now()), secs(5));
    assert_eq!(c.saturating_time_left_after(secs(10), secs(2)), secs(3));
    assert_eq!(c.saturating_time_left_after(secs(10), secs(5)), Duration::zero());
    assert_eq!(c.saturating_time_left_after(secs(10), secs(50)), Duration::zero());
}

#[test]
fn time_relation_is_one_sided() {
    let c = Counter::new(Some(Instant::now()), secs(5));
    assert_eq!(
        c.checked_time_left_after(secs(10), secs(2)),
        DoubleEndedDuration::Positive(secs(3))
    );
    assert_eq!(
        c.checked_time_left_after(secs(10), secs(5)),
        DoubleEndedDuration::Negative(Duration::zero())
    );
    assert_eq!(
        c.checked_time_left_after(secs(10), secs(6)),
        DoubleEndedDuration::Negative(secs(1))
    );
    assert_eq!(relate(secs(4), secs(5)), DoubleEndedDuration::Positive(secs(1)));
    assert_eq!(relate(secs(6), secs(5)), DoubleEndedDuration::Negative(secs(1)));
    assert_eq!(
        relate(Duration::zero(), Duration::zero()),
        DoubleEndedDuration::Negative(Duration::zero())
    );
}

#[test]
fn a_counter_turns_into_its_elapsed_time() {
    assert_eq!(Duration::from(Counter::from(secs(5))), secs(5));
    let running = Counter::new(Some(Instant::now()), secs(5));
    assert!(Duration::from(running) >= secs(5));
    let elapsed: Duration = Counter::from(secs(7)).into();
    assert_eq!(elapsed, secs(7));
}

#[test]
fn a_counter_holds_at_the_largest_span() {
    let max = Duration::from_nanos(u128::MAX);
    let c = Counter::new(Some(Instant::now()), max);
    assert_eq!(c.elapsed_after(secs(1)), max);
    assert_eq!(c.stop_after(secs(1)).elapsed, max);
}
