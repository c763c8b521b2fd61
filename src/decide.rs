//! The decisions a timer makes on the values it has read. The threaded timer
//! and the simulated one both make their decisions through these functions.
use vstd::prelude::*;

verus! {

/// A new duration expires the countdown when it does not exceed the
/// elapsed value.
pub open spec fn expires_under(duration: int, elapsed: int) -> bool {
    duration <= elapsed
}

/// A reset counts again exactly when there is a duration to count toward.
pub open spec fn restarts_after_reset(duration: int) -> bool {
    duration != 0
}

/// The offset a resume anchors at: the elapsed value, unless the timer runs.
pub open spec fn resume_offset_spec(running: bool, elapsed: int) -> Option<int> {
    if running {
        None
    } else {
        Some(elapsed)
    }
}

/// There is progress left while the elapsed value is below the duration.
pub open spec fn has_progress(elapsed: int, duration: int) -> bool {
    elapsed < duration
}

/// What a new duration does to the elapsed value: at or below it the
/// countdown expires (`r.1`) with the elapsed value clamped to the new
/// duration; above it the elapsed value stays.
pub fn duration_step(duration: u16, elapsed: u16) -> (r: (u16, bool))
    ensures
        r.1 == expires_under(duration as int, elapsed as int),
        r.0 == (if duration <= elapsed {
            duration
        } else {
            elapsed
        }),
{
    if duration <= elapsed {
        (duration, true)
    } else {
        (elapsed, false)
    }
}

/// Whether a reset starts the countdown again from zero: exactly when there
/// is a nonzero duration to count toward.
pub fn reset_restarts(duration: u16) -> (r: bool)
    ensures
        r == restarts_after_reset(duration as int),
{
    duration != 0
}

/// The offset from now at which a resume anchors the stopwatch: the elapsed
/// value, so that counting goes on from it; `None` when the timer is already
/// running and a resume does nothing.
pub fn resume_offset(running: bool, elapsed: u16) -> (r: Option<u16>)
    ensures
        match r {
            Some(o) => resume_offset_spec(running, elapsed as int) == Some(o as int),
            None => resume_offset_spec(running, elapsed as int) is None,
        },
        r == (if running {
            None
        } else {
            Some(elapsed)
        }),
{
    if running {
        None
    } else {
        Some(elapsed)
    }
}

/// Whether the countdown has progress left.
pub fn progress_left(elapsed: u16, duration: u16) -> (r: bool)
    ensures
        r == has_progress(elapsed as int, duration as int),
{
    elapsed < duration
}

} // verus!
