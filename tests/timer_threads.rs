use guis::dispatcher::DispatchStep;
use guis::signal::rendevous_channel;
use guis::timer::TimerModel;

#[test]
fn threaded_timer_starts_running() {
    let (model, worker) = TimerModel::new();
    assert!(model.is_running());
    assert_eq!(model.get_duration(), 15000);
    assert!(model.has_progress_left());
    assert!(worker.wait_for_start());
    assert_eq!(worker.after_interval(), DispatchStep::KeepTicking);
    assert!(model.get_elapsed() < 15000);
}

#[test]
fn threaded_stop_then_restart() {
    let (model, worker) = TimerModel::new();
    assert!(model.stop_timer());
    assert!(!model.stop_timer());
    assert_eq!(worker.after_interval(), DispatchStep::Park);
    assert!(model.restart_timer());
    assert!(!model.restart_timer());
    assert!(model.is_running());
}

#[test]
fn threaded_shrunk_duration_expires() {
    let (model, worker) = TimerModel::new();
    model.set_duration(0);
    assert_eq!(model.get_elapsed(), 0);
    assert!(!model.is_running());
    assert_eq!(worker.after_interval(), DispatchStep::Park);
    model.reset_timer();
    assert_eq!(model.get_elapsed(), 0);
    assert!(!model.is_running());
}

#[test]
fn threaded_reset_runs_again() {
    let (model, _worker) = TimerModel::new();
    model.stop_timer();
    model.reset_timer();
    assert_eq!(model.get_elapsed(), 0);
    assert!(model.is_running());
}

#[test]
fn send_succeeds_when_unheld() {
    let (sender, _receiver) = rendevous_channel();
    assert!(sender.send().is_ok());
}

#[test]
fn shutdown_ends_worker() {
    let (model, worker) = TimerModel::new();
    model.shutdown();
    assert!(!model.is_running());
    assert_eq!(worker.after_interval(), DispatchStep::Park);
    assert!(!worker.wait_for_start());
}

#[test]
fn restart_while_running_does_nothing() {
    let (model, _worker) = TimerModel::new();
    assert!(model.is_running());
    assert!(!model.restart_timer());
    assert!(model.is_running());
    assert_eq!(model.get_duration(), 15000);
}

#[test]
fn threaded_duration_above_elapsed_resumes() {
    let (model, _worker) = TimerModel::new();
    model.stop_timer();
    model.set_duration(20000);
    assert_eq!(model.get_duration(), 20000);
    assert!(model.is_running());
}
