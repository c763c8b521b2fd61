//! An interval dispatcher: a worker that sleeps until started, then ticks at
//! a fixed interval until its predicate reports completion or it is stopped.
//!
//! The worker's thread, and its sleep between ticks, belong to the host: it
//! calls `DispatcherWorker::wait_for_start` while idle and
//! `DispatcherWorker::after_interval` each time an interval has passed.
use std::sync::atomic::{AtomicBool, Ordering};
use std::sync::Arc;
use vstd::prelude::*;
use crate::signal::{rendevous_channel, Receiver, Sender};

verus! {

/// The work a dispatcher does on each tick. It returns true when the work is
/// complete and the dispatcher should go idle.
pub trait TickPredicate {
    fn tick(&self) -> bool;
}

/// What the worker does once an interval has passed.
#[derive(PartialEq, Eq, Structural, Clone, Copy, Debug)]
pub enum DispatchStep {
    /// Sleep for another interval.
    KeepTicking,
    /// Go back to waiting for a start.
    Park,
}

/// Decides the worker's next step. The predicate counts only when it was
/// evaluated, which happens only while the running flag is set.
pub fn next_step(running: bool, expired: bool) -> (r: DispatchStep)
    ensures
        r == (if running && !expired {
            DispatchStep::KeepTicking
        } else {
            DispatchStep::Park
        }),
{
    if running && !expired {
        DispatchStep::KeepTicking
    } else {
        DispatchStep::Park
    }
}

/// The controlling side of a dispatcher: it starts and stops the ticking.
pub struct DispatcherTimer {
    is_running: Arc<AtomicBool>,
    closed: Arc<AtomicBool>,
    sender: Sender,
}

/// The side of a dispatcher that runs on the worker thread.
pub struct DispatcherWorker<P: TickPredicate> {
    is_running: Arc<AtomicBool>,
    closed: Arc<AtomicBool>,
    receiver: Receiver,
    tick: P,
}

impl DispatcherTimer {
    /// Builds an idle dispatcher around its tick predicate. The predicate is
    /// given once, here, and lives with the worker.
    pub fn new<P: TickPredicate>(tick: P) -> (DispatcherTimer, DispatcherWorker<P>) {
        let (sender, receiver) = rendevous_channel();
        let is_running = Arc::new(AtomicBool::new(false));
        let worker_is_running = Arc::clone(&is_running);
        let closed = Arc::new(AtomicBool::new(false));
        let worker_closed = Arc::clone(&closed);
        (
            DispatcherTimer { is_running, closed, sender },
            DispatcherWorker { is_running: worker_is_running, closed: worker_closed, receiver, tick },
        )
    }

    /// Whether the dispatcher is ticking at this moment.
    pub fn is_enabled(&self) -> bool {
        self.is_running.load(Ordering::Acquire)
    }

    /// Takes the running flag from false to true and wakes the worker.
    /// Of concurrent callers at most one sees the flag false, so at most one
    /// gets true back; the others find the dispatcher already running.
    pub fn start(&self) -> bool {
        match self.is_running.compare_exchange(false, true, Ordering::SeqCst, Ordering::Acquire) {
            Ok(_) => self.sender.send().is_ok(),
            Err(_) => false,
        }
    }

    /// Takes the running flag from true to false; returns whether it did.
    /// The worker notices within one interval and goes idle.
    pub fn stop(&self) -> bool {
        self.is_running.compare_exchange(true, false, Ordering::SeqCst, Ordering::Acquire).is_ok()
    }

    /// Stops the dispatcher for good: the worker parks within one interval,
    /// and then `wait_for_start` returns false so that its thread can end.
    pub fn shutdown(&self) {
        self.closed.store(true, Ordering::Release);
        self.stop();
        let _ = self.sender.close();
    }
}

impl<P: TickPredicate> DispatcherWorker<P> {
    /// Waits while the dispatcher is idle; returns false when the dispatcher
    /// was shut down or the signal is broken, and the worker should end.
    pub fn wait_for_start(&self) -> bool {
        let received = self.receiver.receive_unless(&self.is_running, &self.closed).is_ok();
        received && !self.closed.load(Ordering::Acquire)
    }

    /// Runs the predicate if the dispatcher is still running and was not shut
    /// down, clears the
    /// running flag when the predicate reports completion, and says what to
    /// do next.
    pub fn after_interval(&self) -> DispatchStep {
        let running = self.is_running.load(Ordering::Acquire) && !self.closed.load(Ordering::Acquire);
        let expired = running && self.tick.tick();
        if expired {
            self.is_running.store(false, Ordering::Release);
        }
        next_step(running, expired)
    }
}

} // verus!
