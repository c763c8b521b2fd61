//! A rendezvous signal: one side wakes the other, and no data passes.
use std::sync::atomic::{AtomicBool, Ordering};
use std::sync::{Arc, Condvar, Mutex, MutexGuard};
use vstd::prelude::*;

verus! {

#[verifier::external_type_specification]
#[verifier::external_body]
#[verifier::reject_recursive_types(T)]
pub struct ExMutex<T: ?Sized>(Mutex<T>);

#[verifier::external_type_specification]
#[verifier::external_body]
#[verifier::reject_recursive_types(T)]
pub struct ExMutexGuard<'a, T: ?Sized + 'a>(MutexGuard<'a, T>);

#[verifier::external_type_specification]
#[verifier::external_body]
pub struct ExCondvar(Condvar);

/// Relies on std's `Mutex::new`, which only builds an unlocked mutex.
pub assume_specification<T>[ Mutex::<T>::new ](t: T) -> Mutex<T>;

/// Relies on std's `Condvar::new`, which only builds a condition variable.
pub assume_specification[ Condvar::new ]() -> Condvar;

/// Relies on std's `Condvar::notify_one`: it wakes at most one waiter and
/// never blocks.
pub assume_specification[ Condvar::notify_one ](c: &Condvar);

/// Relies on std's `Mutex::try_lock`: whether the guard was free at this
/// moment depends on other threads, so nothing is promised of the answer.
/// The guard, if taken, is released at once.
#[verifier::external_body]
fn guard_is_free(m: &Mutex<()>) -> (r: bool) {
    m.try_lock().is_ok()
}

/// Relies on std's `Mutex::lock`, which blocks until the guard is taken and
/// fails only when a panicking holder poisoned it.
#[verifier::external_body]
fn acquire<'a>(m: &'a Mutex<()>) -> (r: Option<MutexGuard<'a, ()>>) {
    m.lock().ok()
}

/// Relies on std's `Condvar::wait`, which releases the guard, blocks until
/// woken, and takes the guard back; it fails only on a poisoned guard.
#[verifier::external_body]
fn wait_on<'a>(c: &Condvar, g: MutexGuard<'a, ()>) -> (r: Option<MutexGuard<'a, ()>>) {
    c.wait(g).ok()
}

struct Shared {
    available: Condvar,
    queue: Mutex<()>,
}

/// The waking side of a rendezvous signal.
pub struct Sender {
    shared: Arc<Shared>,
}

/// The waiting side of a rendezvous signal.
pub struct Receiver {
    shared: Arc<Shared>,
}

/// Builds the two ends of one rendezvous signal. Nothing passes between the
/// two threads but the wake-up itself.
pub fn rendevous_channel() -> (Sender, Receiver) {
    let shared = Arc::new(Shared { queue: Mutex::new(()), available: Condvar::new() });
    let receiver_shared = Arc::clone(&shared);
    (Sender { shared }, Receiver { shared: receiver_shared })
}

impl Sender {
    /// Wakes one waiting receiver without ever blocking: when the signal's
    /// guard is held at this moment, reports failure instead of waiting.
    pub fn send(&self) -> (r: Result<(), ()>) {
        if guard_is_free(&self.shared.queue) {
            self.shared.available.notify_one();
            Ok(())
        } else {
            Err(())
        }
    }

    /// Wakes the receiver even when that means waiting for the signal's
    /// guard. A receiver that checks its flags under the guard cannot miss
    /// this wake-up. Fails only on a poisoned guard.
    pub fn close(&self) -> (r: Result<(), ()>) {
        match acquire(&self.shared.queue) {
            Some(_guard) => {
                self.shared.available.notify_one();
                Ok(())
            },
            None => Err(()),
        }
    }
}

impl Receiver {
    /// Blocks until a sender wakes this thread, unless `running` or `closed`
    /// is already set when the signal's guard is taken. Fails only when the
    /// guard was poisoned by a panicking holder.
    pub fn receive_unless(&self, running: &AtomicBool, closed: &AtomicBool) -> (r: Result<(), ()>) {
        match acquire(&self.shared.queue) {
            Some(guard) => {
                if running.load(Ordering::Acquire) || closed.load(Ordering::Acquire) {
                    Ok(())
                } else {
                    match wait_on(&self.shared.available, guard) {
                        Some(_guard) => Ok(()),
                        None => Err(()),
                    }
                }
            },
            None => Err(()),
        }
    }

    /// Blocks until a sender wakes this thread. Fails only when the signal's
    /// guard was poisoned by a panicking holder.
    pub fn receive(&self) -> (r: Result<(), ()>) {
        match acquire(&self.shared.queue) {
            Some(guard) => match wait_on(&self.shared.available, guard) {
                Some(_guard) => Ok(()),
                None => Err(()),
            },
            None => Err(()),
        }
    }
}

} // verus!
