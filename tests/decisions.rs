use guis::decide::{duration_step, progress_left, reset_restarts, resume_offset};

#[test]
fn duration_at_or_below_elapsed_expires() {
    assert_eq!(duration_step(3000, 5000), (3000, true));
    assert_eq!(duration_step(5000, 5000), (5000, true));
    assert_eq!(duration_step(0, 0), (0, true));
}

#[test]
fn duration_above_elapsed_keeps_elapsed() {
    assert_eq!(duration_step(15000, 5000), (5000, false));
}

#[test]
fn reset_restarts_only_with_duration() {
    assert!(reset_restarts(15000));
    assert!(!reset_restarts(0));
}

#[test]
fn resume_offset_is_elapsed_when_idle() {
    assert_eq!(resume_offset(false, 2500), Some(2500));
    assert_eq!(resume_offset(true, 2500), None);
}

#[test]
fn progress_left_compares() {
    assert!(progress_left(100, 200));
    assert!(!progress_left(200, 200));
    assert!(!progress_left(300, 200));
}
