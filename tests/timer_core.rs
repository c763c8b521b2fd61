use guis::clock::{clamp_millis, tick_outcome};
use guis::dispatcher::{next_step, DispatchStep};
use guis::model::{TimerCore, DEFAULT_DURATION_MS, TICK_INTERVAL_MS};

#[test]
fn new_timer_runs_toward_default_duration() {
    let t = TimerCore::new();
    assert_eq!(t.get_duration(), DEFAULT_DURATION_MS);
    assert_eq!(t.get_duration(), 15000);
    assert_eq!(t.get_elapsed(), 0);
    assert!(t.is_running());
    assert!(t.has_progress_left());
}

#[test]
fn countdown_then_shrunk_duration_clamps_and_stops() {
    let mut t = TimerCore::with_duration(15000);
    t.stop();
    assert!(t.start());
    t.wait(5000);
    let e = t.get_elapsed();
    assert!(e >= 4900 && e <= 5100);
    assert_eq!(e, 5000);
    t.set_duration(3000);
    assert_eq!(t.get_elapsed(), 3000);
    assert_eq!(t.get_duration(), 3000);
    assert!(!t.is_running());
    assert!(!t.has_progress_left());
}

#[test]
fn zero_duration_reset_stays_stopped() {
    let mut t = TimerCore::with_duration(0);
    assert!(!t.is_running());
    t.reset();
    assert!(!t.is_running());
    assert_eq!(t.get_elapsed(), 0);
    t.wait(1000);
    assert_eq!(t.get_elapsed(), 0);
    assert!(!t.is_running());
}

#[test]
fn elapsed_grows_to_duration_and_stays() {
    let mut t = TimerCore::with_duration(1000);
    let mut last = t.get_elapsed();
    for _ in 0..30 {
        t.wait(TICK_INTERVAL_MS);
        let e = t.get_elapsed();
        assert!(e >= last);
        assert!(e <= 1000);
        last = e;
    }
    assert_eq!(t.get_elapsed(), 1000);
    assert!(!t.is_running());
}

#[test]
fn partial_interval_does_not_tick() {
    let mut t = TimerCore::with_duration(1000);
    t.wait(250);
    assert_eq!(t.get_elapsed(), 200);
    assert_eq!(t.now(), 250);
    t.wait(50);
    assert_eq!(t.get_elapsed(), 200);
    assert!(!t.tick());
    assert_eq!(t.get_elapsed(), 300);
}

#[test]
fn stop_freezes_elapsed() {
    let mut t = TimerCore::with_duration(10000);
    t.wait(1200);
    assert!(t.stop());
    let frozen = t.get_elapsed();
    assert_eq!(frozen, 1200);
    t.wait(5000);
    assert_eq!(t.get_elapsed(), frozen);
    assert!(!t.stop());
}

#[test]
fn restart_resumes_from_pause() {
    let mut t = TimerCore::with_duration(10000);
    t.wait(2000);
    t.stop();
    t.wait(3000);
    assert!(t.restart());
    assert_eq!(t.get_elapsed(), 2000);
    t.wait(500);
    assert_eq!(t.get_elapsed(), 2500);
    assert!(!t.restart());
}

#[test]
fn reset_restarts_from_zero() {
    let mut t = TimerCore::with_duration(2000);
    t.wait(3000);
    assert!(!t.is_running());
    assert_eq!(t.get_elapsed(), 2000);
    t.reset();
    assert_eq!(t.get_elapsed(), 0);
    assert!(t.is_running());
    t.wait(700);
    assert_eq!(t.get_elapsed(), 700);
}

#[test]
fn repeated_starts_take_effect_once() {
    let mut t = TimerCore::with_duration(5000);
    t.stop();
    let successes = (0..8).filter(|_| t.start()).count();
    assert_eq!(successes, 1);
    let again = (0..8).filter(|_| t.start()).count();
    assert_eq!(again, 0);
}

#[test]
fn raising_duration_resumes_stopped_timer() {
    let mut t = TimerCore::with_duration(1000);
    t.wait(1500);
    assert!(!t.is_running());
    t.set_duration(4000);
    assert!(t.is_running());
    assert_eq!(t.get_elapsed(), 1000);
    t.wait(1000);
    assert_eq!(t.get_elapsed(), 2000);
}

#[test]
fn duration_equal_to_elapsed_expires() {
    let mut t = TimerCore::with_duration(5000);
    t.wait(1000);
    t.set_duration(1000);
    assert_eq!(t.get_elapsed(), 1000);
    assert!(!t.is_running());
}

#[test]
fn largest_duration_counts_to_the_end() {
    let mut t = TimerCore::with_duration(65535);
    t.wait(70000);
    assert_eq!(t.get_elapsed(), 65535);
    assert!(!t.is_running());
}

#[test]
fn tick_reports_expiry() {
    let mut t = TimerCore::with_duration(300);
    t.advance(200);
    assert!(!t.tick());
    assert_eq!(t.get_elapsed(), 200);
    t.advance(150);
    assert!(t.tick());
    assert_eq!(t.get_elapsed(), 300);
    assert!(!t.tick());
}

#[test]
fn clamp_saturates() {
    assert_eq!(clamp_millis(0), 0);
    assert_eq!(clamp_millis(1234), 1234);
    assert_eq!(clamp_millis(65535), 65535);
    assert_eq!(clamp_millis(70000), 65535);
}

#[test]
fn tick_outcome_clamps_to_duration() {
    assert_eq!(tick_outcome(100, 3000), (100, false));
    assert_eq!(tick_outcome(3000, 3000), (3000, true));
    assert_eq!(tick_outcome(5000, 3000), (3000, true));
    assert_eq!(tick_outcome(0, 0), (0, true));
}

#[test]
fn dispatcher_step_decisions() {
    assert_eq!(next_step(true, false), DispatchStep::KeepTicking);
    assert_eq!(next_step(true, true), DispatchStep::Park);
    assert_eq!(next_step(false, false), DispatchStep::Park);
}
