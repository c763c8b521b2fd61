//! A single-threaded model of the countdown timer on a simulated clock.
//!
//! The model makes the same decisions as the threaded timer, but time only
//! moves when the caller says so, and the dispatcher's ticks happen at exact
//! interval boundaries. Its laws are stated over `TimerState`.
use vstd::prelude::*;
use crate::clock::{clamp_millis, clamp_millis_spec, tick_outcome, MAX_MILLIS};
use crate::decide::{
    duration_step, expires_under, progress_left, reset_restarts, restarts_after_reset, resume_offset,
    resume_offset_spec,
};

verus! {

/// Milliseconds between two ticks of the dispatcher.
pub const TICK_INTERVAL_MS: u64 = 100;

/// Duration a freshly built timer counts toward.
pub const DEFAULT_DURATION_MS: u16 = 15000;

/// The abstract state of a timer.
pub struct TimerState {
    /// Target, in milliseconds.
    pub duration: int,
    /// Progress, in milliseconds, as of the last tick or edit.
    pub elapsed: int,
    /// Whether the dispatcher is ticking.
    pub running: bool,
    /// The instant at which the stopwatch would have read zero.
    pub anchor: int,
    /// The current instant of the simulated clock.
    pub now: int,
}

impl TimerState {
    /// Elapsed time derived from the anchor at the current instant.
    pub open spec fn measured(self) -> int {
        clamp_millis_spec(self.now - self.anchor)
    }

    pub open spec fn wf(self) -> bool {
        &&& 0 <= self.elapsed <= self.duration <= MAX_MILLIS as int
        &&& 0 <= self.now <= u64::MAX as int
        &&& -(MAX_MILLIS as int) <= self.anchor <= self.now
        &&& self.running ==> self.elapsed <= self.measured()
    }

    /// A start: from idle, anchor the stopwatch so that it reads the
    /// current elapsed value and begin ticking; when running, nothing changes.
    pub open spec fn started(self) -> TimerState {
        match resume_offset_spec(self.running, self.elapsed) {
            None => self,
            Some(offset) => TimerState { running: true, anchor: self.now - offset, ..self },
        }
    }

    pub open spec fn stopped(self) -> TimerState {
        TimerState { running: false, ..self }
    }

    /// One evaluation of the tick predicate, which only a running timer makes.
    pub open spec fn ticked(self) -> TimerState {
        if !self.running {
            self
        } else if self.measured() >= self.duration {
            TimerState { elapsed: self.duration, running: false, ..self }
        } else {
            TimerState { elapsed: self.measured(), ..self }
        }
    }

    pub open spec fn advanced(self, ms: int) -> TimerState {
        TimerState { now: self.now + ms, ..self }
    }

    /// Waiting `ms` milliseconds: a tick at the end of each whole interval.
    pub open spec fn waited(self, ms: nat) -> TimerState
        decreases ms,
    {
        if ms < TICK_INTERVAL_MS {
            self.advanced(ms as int)
        } else {
            self.advanced(TICK_INTERVAL_MS as int).ticked().waited((ms - TICK_INTERVAL_MS) as nat)
        }
    }

    /// A reset: elapsed back to zero, running again exactly when there is a
    /// nonzero duration to count toward.
    pub open spec fn reset(self) -> TimerState {
        if restarts_after_reset(self.duration) {
            TimerState { elapsed: 0, running: true, anchor: self.now, ..self }
        } else {
            TimerState { elapsed: 0, running: false, ..self }
        }
    }

    /// A new target: expires at once when it does not exceed the elapsed
    /// value, and otherwise resumes counting toward it.
    pub open spec fn with_duration(self, d: int) -> TimerState {
        if expires_under(d, self.elapsed) {
            TimerState { duration: d, elapsed: d, running: false, ..self }
        } else {
            TimerState { duration: d, ..self }.started()
        }
    }

    /// How many of `n` start attempts, made one after another, take effect.
    pub open spec fn start_successes(self, n: nat) -> nat
        decreases n,
    {
        if n == 0 {
            0
        } else {
            (if self.running { 0nat } else { 1nat }) + self.started().start_successes(
                (n - 1) as nat,
            )
        }
    }
}

/// A countdown timer on a simulated clock.
pub struct TimerCore {
    duration: u16,
    elapsed: u16,
    running: bool,
    anchor: i128,
    now: u64,
}

impl View for TimerCore {
    type V = TimerState;

    closed spec fn view(&self) -> TimerState {
        TimerState {
            duration: self.duration as int,
            elapsed: self.elapsed as int,
            running: self.running,
            anchor: self.anchor as int,
            now: self.now as int,
        }
    }
}

impl TimerCore {
    #[verifier::type_invariant]
    closed spec fn inv(&self) -> bool {
        self@.wf()
    }

    /// A timer at instant zero counting toward `duration` from zero; it runs
    /// unless there is nothing to count toward.
    pub fn with_duration(duration: u16) -> (r: TimerCore)
        ensures
            r@ == (TimerState { duration: duration as int, elapsed: 0, running: false, anchor: 0, now: 0 }).reset(),
    {
        TimerCore { duration, elapsed: 0, running: duration != 0, anchor: 0, now: 0 }
    }

    /// A running timer counting toward the default duration.
    pub fn new() -> (r: TimerCore)
        ensures
            r@ == (TimerState { duration: DEFAULT_DURATION_MS as int, elapsed: 0, running: false, anchor: 0, now: 0 }).reset(),
            r@.running,
    {
        TimerCore::with_duration(DEFAULT_DURATION_MS)
    }

    pub fn get_elapsed(&self) -> (r: u16)
        ensures
            r as int == self@.elapsed,
    {
        self.elapsed
    }

    pub fn get_duration(&self) -> (r: u16)
        ensures
            r as int == self@.duration,
    {
        self.duration
    }

    pub fn is_running(&self) -> (r: bool)
        ensures
            r == self@.running,
    {
        self.running
    }

    /// The current instant of the simulated clock.
    pub fn now(&self) -> (r: u64)
        ensures
            r as int == self@.now,
    {
        self.now
    }

    /// Whether the countdown has progress left, so that a display should
    /// keep redrawing.
    pub fn has_progress_left(&self) -> (r: bool)
        ensures
            r == (self@.elapsed < self@.duration),
    {
        progress_left(self.elapsed, self.duration)
    }

    fn measured(&self) -> (r: u16)
        requires
            self@.wf(),
        ensures
            r as int == self@.measured(),
    {
        let diff: i128 = self.now as i128 - self.anchor;
        if diff <= 0 {
            0
        } else {
            clamp_millis(diff as u128)
        }
    }

    /// Starts ticking from the current elapsed value; returns false, and
    /// changes nothing, when the timer is already running.
    pub fn start(&mut self) -> (r: bool)
        ensures
            r == !old(self)@.running,
            final(self)@ == old(self)@.started(),
    {
        proof { use_type_invariant(&*self); }
        match resume_offset(self.running, self.elapsed) {
            None => false,
            Some(offset) => {
                self.anchor = self.now as i128 - offset as i128;
                self.running = true;
                true
            },
        }
    }

    /// Resumes a paused timer from where it stopped; returns false, and
    /// changes nothing, when the timer is already running.
    pub fn restart(&mut self) -> (r: bool)
        ensures
            r == !old(self)@.running,
            final(self)@ == old(self)@.started(),
    {
        self.start()
    }

    /// Stops ticking; returns whether the timer was running.
    pub fn stop(&mut self) -> (r: bool)
        ensures
            r == old(self)@.running,
            final(self)@ == old(self)@.stopped(),
    {
        proof { use_type_invariant(&*self); }
        let was_running = self.running;
        self.running = false;
        was_running
    }

    /// One evaluation of the tick predicate by the dispatcher; returns
    /// whether the countdown expired on it.
    pub fn tick(&mut self) -> (r: bool)
        ensures
            r == (old(self)@.running && old(self)@.measured() >= old(self)@.duration),
            final(self)@ == old(self)@.ticked(),
    {
        proof { use_type_invariant(&*self); }
        if !self.running {
            return false;
        }
        let (elapsed, expired) = tick_outcome(self.measured(), self.duration);
        self.elapsed = elapsed;
        if expired {
            self.running = false;
        }
        expired
    }

    /// Moves the simulated clock forward without any tick.
    pub fn advance(&mut self, ms: u64)
        requires
            old(self)@.now + ms <= u64::MAX,
        ensures
            final(self)@ == old(self)@.advanced(ms as int),
    {
        proof { use_type_invariant(&*self); }
        self.now = self.now + ms;
        proof {
            assert(clamp_millis_spec(old(self)@.now - self.anchor) <= clamp_millis_spec(self.now - self.anchor));
        }
    }

    /// Waits `ms` milliseconds, ticking at the end of each whole interval.
    pub fn wait(&mut self, ms: u64)
        requires
            old(self)@.now + ms <= u64::MAX,
        ensures
            final(self)@ == old(self)@.waited(ms as nat),
    {
        let mut remaining: u64 = ms;
        while remaining >= TICK_INTERVAL_MS
            invariant
                self@.now + remaining <= u64::MAX,
                self@.waited(remaining as nat) == old(self)@.waited(ms as nat),
            decreases remaining,
        {
            self.advance(TICK_INTERVAL_MS);
            self.tick();
            remaining = remaining - TICK_INTERVAL_MS;
        }
        self.advance(remaining);
    }

    /// Sets the elapsed value back to zero; the timer then runs exactly when
    /// its duration is nonzero.
    pub fn reset(&mut self)
        ensures
            final(self)@ == old(self)@.reset(),
            final(self)@.elapsed == 0,
            final(self)@.running == (final(self)@.duration > 0),
    {
        proof { use_type_invariant(&*self); }
        self.elapsed = 0;
        self.running = false;
        if reset_restarts(self.duration) {
            self.anchor = self.now as i128;
            self.running = true;
        }
    }

    /// Sets a new target: at or below the elapsed value the timer expires at
    /// once, clamped to the new target; above it a paused timer resumes.
    pub fn set_duration(&mut self, duration: u16)
        ensures
            final(self)@ == old(self)@.with_duration(duration as int),
            duration as int <= old(self)@.elapsed ==> final(self)@.elapsed == duration && !final(self)@.running,
            duration as int > old(self)@.elapsed ==> final(self)@.elapsed == old(self)@.elapsed && final(self)@.running,
    {
        proof { use_type_invariant(&*self); }
        let (elapsed, expired) = duration_step(duration, self.elapsed);
        if expired {
            *self = TimerCore {
                duration,
                elapsed,
                running: false,
                anchor: self.anchor,
                now: self.now,
            };
        } else {
            self.duration = duration;
            self.start();
        }
    }
}

/// Moving the clock forward keeps a timer well formed.
pub proof fn lemma_advanced_wf(s: TimerState, ms: nat)
    requires
        s.wf(),
        s.now + ms <= u64::MAX,
    ensures
        s.advanced(ms as int).wf(),
        s.measured() <= s.advanced(ms as int).measured(),
{
}

/// A tick keeps a timer well formed, never lowers its elapsed value, and
/// never takes it past the duration.
pub proof fn lemma_ticked_wf(s: TimerState)
    requires
        s.wf(),
    ensures
        s.ticked().wf(),
        s.elapsed <= s.ticked().elapsed <= s.duration,
        s.ticked().duration == s.duration,
        s.ticked().now == s.now,
{
}

/// While a timer waits, its elapsed value never decreases and never passes
/// the duration, and once it has reached the duration it stays there.
pub proof fn lemma_wait_monotonic(s: TimerState, ms: nat)
    requires
        s.wf(),
        s.now + ms <= u64::MAX,
    ensures
        s.waited(ms).wf(),
        s.waited(ms).duration == s.duration,
        s.waited(ms).now == s.now + ms,
        s.elapsed <= s.waited(ms).elapsed <= s.duration,
        s.elapsed == s.duration ==> s.waited(ms).elapsed == s.duration,
    decreases ms,
{
    if ms >= TICK_INTERVAL_MS {
        let a = s.advanced(TICK_INTERVAL_MS as int);
        lemma_advanced_wf(s, TICK_INTERVAL_MS as nat);
        lemma_ticked_wf(a);
        lemma_wait_monotonic(a.ticked(), (ms - TICK_INTERVAL_MS) as nat);
    }
}

/// Waiting for two spans in turn is waiting for the first and then the
/// second: later readings of the elapsed value never fall below earlier ones.
pub proof fn lemma_wait_monotonic_later(s: TimerState, ms1: nat, ms2: nat)
    requires
        s.wf(),
        s.now + ms1 + ms2 <= u64::MAX,
        ms1 % (TICK_INTERVAL_MS as nat) == 0,
    ensures
        s.waited(ms1 + ms2) == s.waited(ms1).waited(ms2),
        s.waited(ms1).elapsed <= s.waited(ms1 + ms2).elapsed <= s.duration,
    decreases ms1,
{
    if ms1 >= TICK_INTERVAL_MS {
        let a = s.advanced(TICK_INTERVAL_MS as int);
        lemma_advanced_wf(s, TICK_INTERVAL_MS as nat);
        lemma_ticked_wf(a);
        assert((ms1 + ms2 - TICK_INTERVAL_MS) as nat == ((ms1 - TICK_INTERVAL_MS) as nat) + ms2);
        lemma_wait_monotonic_later(a.ticked(), (ms1 - TICK_INTERVAL_MS) as nat, ms2);
    } else {
        assert(ms1 == 0);
        assert(s.advanced(0) == s);
    }
    lemma_wait_monotonic(s, ms1);
    lemma_wait_monotonic(s.waited(ms1), ms2);
}

/// After a new duration `d` is set above the elapsed value, the timer runs,
/// and while it then waits its elapsed value never decreases, never passes
/// `d`, and stays at `d` once it has reached it.
pub proof fn lemma_set_duration_then_wait(s: TimerState, d: int, ms1: nat, ms2: nat)
    requires
        s.wf(),
        s.elapsed < d <= MAX_MILLIS as int,
        s.now + ms1 + ms2 <= u64::MAX,
        ms1 % (TICK_INTERVAL_MS as nat) == 0,
    ensures
        s.with_duration(d).wf(),
        s.with_duration(d).running,
        s.with_duration(d).elapsed == s.elapsed,
        s.elapsed <= s.with_duration(d).waited(ms1).elapsed <= s.with_duration(d).waited(ms1 + ms2).elapsed <= d,
        s.with_duration(d).waited(ms1).elapsed == d ==> s.with_duration(d).waited(ms1 + ms2).elapsed == d,
{
    let t = s.with_duration(d);
    lemma_wait_monotonic(t, ms1);
    lemma_wait_monotonic_later(t, ms1, ms2);
    lemma_wait_monotonic(t.waited(ms1), ms2);
}

/// A stopped timer's elapsed value does not change however long it waits,
/// and it stays stopped.
pub proof fn lemma_stop_freezes(s: TimerState, ms: nat)
    ensures
        s.stopped().waited(ms).elapsed == s.stopped().elapsed,
        !s.stopped().waited(ms).running,
    decreases ms,
{
    if ms >= TICK_INTERVAL_MS {
        let a = s.stopped().advanced(TICK_INTERVAL_MS as int);
        assert(a.ticked() == a);
        assert(a == a.stopped());
        lemma_stop_freezes(a, (ms - TICK_INTERVAL_MS) as nat);
    }
}

/// A reset always leaves the elapsed value at zero, and the timer runs
/// afterwards exactly when its duration is nonzero.
pub proof fn lemma_reset(s: TimerState)
    requires
        s.wf(),
    ensures
        s.reset().wf(),
        s.reset().elapsed == 0,
        s.reset().duration == s.duration,
        s.reset().running <==> s.reset().duration > 0,
{
}

/// Pausing and resuming loses nothing: a timer stopped at elapsed value `e`
/// and restarted counts on from `e`, not from zero.
pub proof fn lemma_pause_resume(s: TimerState, ms: nat)
    requires
        s.wf(),
        s.now + ms <= u64::MAX,
    ensures
        s.stopped().started().elapsed == s.elapsed,
        s.stopped().started().running,
        s.stopped().started().wf(),
        s.stopped().started().advanced(ms as int).ticked().elapsed == if s.elapsed + ms
            < s.duration {
            s.elapsed + ms
        } else {
            s.duration
        },
{
}

/// Of any number of start attempts made against one timer, at most one takes
/// effect, and exactly one does when the timer was idle.
pub proof fn lemma_single_start(s: TimerState, n: nat)
    ensures
        s.start_successes(n) <= 1,
        s.start_successes(n) == if !s.running && n > 0 {
            1nat
        } else {
            0nat
        },
    decreases n,
{
    if n > 0 {
        lemma_single_start(s.started(), (n - 1) as nat);
    }
}

} // verus!
