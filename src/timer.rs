//! The threaded countdown timer: duration and elapsed time in shared atomic
//! counters, the stopwatch's anchor behind a reader-writer lock, and an
//! interval dispatcher that recomputes the elapsed time on each tick.
//!
//! Each operation reads the shared values and hands them to a decision
//! function of `decide`, which `TimerCore` calls too. Another thread may act
//! between two reads, so nothing is promised here of the values read; what
//! is decided on them is stated by the decision functions.
use std::sync::{Arc, RwLock};
use std::time::{Duration, Instant};
use vstd::prelude::*;
use crate::clock::{clamp_millis, tick_outcome, Milliseconds};
use crate::decide::{duration_step, progress_left, reset_restarts, resume_offset};
use crate::dispatcher::{DispatcherTimer, DispatcherWorker, TickPredicate};
use crate::model::DEFAULT_DURATION_MS;

verus! {

#[verifier::external_type_specification]
#[verifier::external_body]
pub struct ExInstant(Instant);

#[verifier::external_type_specification]
#[verifier::external_body]
#[verifier::reject_recursive_types(T)]
pub struct ExRwLock<T: ?Sized>(RwLock<T>);

/// Relies on std's `RwLock::new`, which only builds an unlocked lock.
pub assume_specification<T>[ RwLock::<T>::new ](t: T) -> RwLock<T>;

/// Relies on std's `Instant::now`: the current instant of a monotonic clock,
/// of which nothing can be promised statically.
#[verifier::external_body]
fn instant_now() -> (r: Instant) {
    Instant::now()
}

/// Relies on std's `Instant::checked_sub`: the instant `ms` milliseconds
/// earlier, or `None` where the platform cannot represent it.
#[verifier::external_body]
fn instant_before(at: Instant, ms: u16) -> (r: Option<Instant>) {
    at.checked_sub(Duration::from_millis(ms as u64))
}

/// Relies on std's `Instant::elapsed`: whole milliseconds from `anchor` to
/// now, zero if `anchor` lies in the future.
#[verifier::external_body]
fn millis_since(anchor: Instant) -> (r: u128) {
    anchor.elapsed().as_millis()
}

/// Relies on std's `RwLock::read`: a copy of the anchor, or `None` when a
/// panicking writer poisoned the lock.
#[verifier::external_body]
fn read_anchor(lock: &RwLock<Instant>) -> (r: Option<Instant>) {
    lock.read().ok().map(|anchor| *anchor)
}

/// Relies on std's `RwLock::try_write`: stores `value` when the lock can be
/// taken without waiting, and returns whether it was stored.
#[verifier::external_body]
fn try_store_anchor(lock: &RwLock<Instant>, value: Instant) -> (r: bool) {
    match lock.try_write() {
        Ok(mut anchor) => {
            *anchor = value;
            true
        },
        Err(_) => false,
    }
}

/// The tick predicate of a timer: recompute the elapsed time from the anchor
/// and report whether it has reached the duration, clamping it there if so.
pub struct TimerTick {
    duration: Milliseconds,
    elapsed_time: Milliseconds,
    stop_watch: Arc<RwLock<Instant>>,
}

impl TickPredicate for TimerTick {
    /// A poisoned anchor lock ends the countdown: the dispatcher goes idle
    /// rather than tick on a stopwatch it cannot read.
    fn tick(&self) -> bool {
        match read_anchor(&self.stop_watch) {
            Some(anchor) => {
                let measured = clamp_millis(millis_since(anchor));
                let (elapsed, expired) = tick_outcome(measured, self.duration.get());
                self.elapsed_time.set(elapsed);
                expired
            },
            None => true,
        }
    }
}

/// A countdown timer shared between a display thread and a dispatcher
/// thread. The display side never blocks: each operation is an atomic load
/// or store, or a lock attempt that gives up at once under contention.
pub struct TimerModel {
    duration: Milliseconds,
    elapsed_time: Milliseconds,
    stop_watch: Arc<RwLock<Instant>>,
    timer: DispatcherTimer,
}

impl TimerModel {
    /// A timer counting toward the default duration from zero, already
    /// started, with the worker that the host runs on its own thread.
    pub fn new() -> (TimerModel, DispatcherWorker<TimerTick>) {
        let duration = Milliseconds::new(DEFAULT_DURATION_MS);
        let elapsed_time = Milliseconds::new(0);
        let stop_watch = Arc::new(RwLock::new(instant_now()));
        let tick = TimerTick {
            duration: duration.clone(),
            elapsed_time: elapsed_time.clone(),
            stop_watch: Arc::clone(&stop_watch),
        };
        let (timer, worker) = DispatcherTimer::new(tick);
        timer.start();
        (TimerModel { duration, elapsed_time, stop_watch, timer }, worker)
    }

    pub fn get_elapsed(&self) -> u16 {
        self.elapsed_time.get()
    }

    pub fn get_duration(&self) -> u16 {
        self.duration.get()
    }

    pub fn is_running(&self) -> bool {
        self.timer.is_enabled()
    }

    /// Whether the countdown has progress left, so that the display should
    /// keep requesting frames.
    pub fn has_progress_left(&self) -> bool {
        progress_left(self.elapsed_time.get(), self.duration.get())
    }

    /// Starts the dispatcher only once the anchor was stored: under
    /// contention for the anchor lock nothing takes effect.
    fn start_if_stored(&self, stored: bool) -> (r: bool)
        ensures
            !stored ==> !r,
    {
        if stored {
            self.timer.start()
        } else {
            false
        }
    }

    /// Anchors the stopwatch `offset` milliseconds before now and starts the
    /// dispatcher; returns whether it took effect.
    fn resume_from(&self, offset: u16) -> bool {
        match instant_before(instant_now(), offset) {
            Some(anchor) => {
                let stored = try_store_anchor(&self.stop_watch, anchor);
                self.start_if_stored(stored)
            },
            None => false,
        }
    }

    /// Resumes counting from the current elapsed value when the timer is
    /// not running; returns whether it took effect. Under contention for the
    /// anchor it gives up, to be tried again on the next interaction.
    pub fn restart_timer(&self) -> bool {
        match resume_offset(self.timer.is_enabled(), self.elapsed_time.get()) {
            Some(offset) => self.resume_from(offset),
            None => false,
        }
    }

    /// Stops the countdown where it is; returns whether it was running.
    pub fn stop_timer(&self) -> bool {
        self.timer.stop()
    }

    /// Sets the elapsed value to zero and stops the countdown; then, when the
    /// duration is nonzero, starts it again from zero.
    pub fn reset_timer(&self) {
        self.elapsed_time.set(0);
        self.timer.stop();
        if reset_restarts(self.duration.get()) {
            self.resume_from(0);
        }
    }

    /// Sets a new target. At or below the elapsed value the countdown
    /// expires at once, clamped to the new target; above it a stopped timer
    /// resumes from its elapsed value.
    pub fn set_duration(&self, duration: u16) {
        self.duration.set(duration);
        let (elapsed, expired) = duration_step(duration, self.elapsed_time.get());
        if expired {
            self.elapsed_time.set(elapsed);
            self.timer.stop();
        } else {
            self.restart_timer();
        }
    }

    /// Stops the countdown for good and wakes the worker so that it ends;
    /// the host then joins the worker's thread.
    pub fn shutdown(&self) {
        self.timer.shutdown();
    }
}

} // verus!
