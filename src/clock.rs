use std::sync::atomic::{AtomicU16, Ordering};
use std::sync::Arc;
use vstd::prelude::*;

verus! {

/// Largest value a millisecond counter can hold.
pub const MAX_MILLIS: u16 = 65535;

/// Millisecond count measured from an anchor, saturated to the counter's range.
pub open spec fn clamp_millis_spec(ms: int) -> int {
    if ms <= 0 {
        0
    } else if ms > MAX_MILLIS as int {
        MAX_MILLIS as int
    } else {
        ms
    }
}

/// Turns a measured number of milliseconds into a counter value, saturating
/// at the counter's largest value.
pub fn clamp_millis(ms: u128) -> (r: u16)
    ensures
        r as int == clamp_millis_spec(ms as int),
{
    if ms > MAX_MILLIS as u128 {
        MAX_MILLIS
    } else {
        ms as u16
    }
}

/// What one evaluation of the tick predicate leaves in the elapsed counter:
/// the measured value, or exactly the duration once that is reached.
pub open spec fn tick_elapsed_spec(measured: int, duration: int) -> int {
    if measured >= duration {
        duration
    } else {
        measured
    }
}

/// Decides one tick from the measured elapsed time and the target duration:
/// returns the new elapsed value and whether the countdown has expired.
pub fn tick_outcome(measured: u16, duration: u16) -> (r: (u16, bool))
    ensures
        r.0 as int == tick_elapsed_spec(measured as int, duration as int),
        r.1 == (measured >= duration),
{
    if measured >= duration {
        (duration, true)
    } else {
        (measured, false)
    }
}

/// A millisecond count shared between threads without a lock: the duration
/// or the elapsed time of a timer. Clones share one value.
///
/// Another thread may store at any moment, so nothing is known statically of
/// the value a read returns beyond its type's range.
#[derive(Clone)]
pub struct Milliseconds(Arc<AtomicU16>);

impl Milliseconds {
    pub fn new(value: u16) -> Milliseconds {
        Milliseconds(Arc::new(AtomicU16::new(value)))
    }

    /// Reads the current value, with acquire ordering.
    pub fn get(&self) -> u16 {
        self.0.load(Ordering::Acquire)
    }

    /// Stores a new value, with release ordering.
    pub fn set(&self, value: u16) {
        self.0.store(value, Ordering::Release)
    }
}

} // verus!
