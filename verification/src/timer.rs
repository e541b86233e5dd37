//! A repeating countdown timer, counting milliseconds of simulated time.
//!
//! Each frame the timer is advanced by the elapsed time; when the
//! accumulated time reaches the period the timer fires and wraps the
//! remainder into the next cycle. A paused timer ignores time entirely.

use vstd::prelude::*;

verus! {

#[derive(Clone, Copy, Debug, PartialEq, Eq, Structural)]
pub struct Timer {
    pub elapsed_ms: u64,
    pub period_ms: u64,
    pub paused: bool,
}

/// Mathematical model of a timer, over unbounded integers.
pub ghost struct TimerModel {
    pub elapsed: int,
    pub period: int,
    pub paused: bool,
}

impl View for Timer {
    type V = TimerModel;

    open spec fn view(&self) -> TimerModel {
        TimerModel {
            elapsed: self.elapsed_ms as int,
            period: self.period_ms as int,
            paused: self.paused,
        }
    }
}

impl TimerModel {
    /// A timer is well formed when its period is positive and the
    /// accumulated time has not yet reached it.
    pub open spec fn wf(self) -> bool {
        0 < self.period && 0 <= self.elapsed < self.period
    }
}

/// A running timer fires when the elapsed time reaches its period.
pub open spec fn fires(t: TimerModel, delta: int) -> bool {
    !t.paused && t.elapsed + delta >= t.period
}

/// The timer after one advance by `delta`: unchanged while paused,
/// otherwise the accumulated time wraps at the period.
pub open spec fn ticked(t: TimerModel, delta: int) -> TimerModel {
    if t.paused {
        t
    } else {
        TimerModel { elapsed: (t.elapsed + delta) % t.period, ..t }
    }
}

impl Timer {
    /// A fresh repeating timer with the given period, not yet advanced.
    pub fn new(period_ms: u64, paused: bool) -> (t: Timer)
        requires
            period_ms > 0,
        ensures
            t@.wf(),
            t@.period == period_ms,
            t@.elapsed == 0,
            t@.paused == paused,
    {
        Timer { elapsed_ms: 0, period_ms, paused }
    }

    /// Advance the timer by `delta_ms`. Returns true exactly when the
    /// accumulated time reached the period this frame; the overshoot is
    /// carried into the next cycle. A paused timer is left untouched.
    pub fn tick(&mut self, delta_ms: u64) -> (fired: bool)
        requires
            old(self)@.wf(),
            old(self)@.elapsed + delta_ms <= u64::MAX,
        ensures
            final(self)@.wf(),
            final(self)@.period == old(self)@.period,
            final(self)@.paused == old(self)@.paused,
            fired == fires(old(self)@, delta_ms as int),
            final(self)@ == ticked(old(self)@, delta_ms as int),
            old(self)@.paused ==> !fired && final(self)@ == old(self)@,
            !old(self)@.paused ==> {
                &&& fired == (old(self)@.elapsed + delta_ms >= old(self)@.period)
                &&& final(self)@.elapsed == (old(self)@.elapsed + delta_ms) % old(self)@.period
            },
    {
        if self.paused {
            return false;
        }
        let total: u64 = self.elapsed_ms + delta_ms;
        let fired: bool = total >= self.period_ms;
        self.elapsed_ms = total % self.period_ms;
        fired
    }

    /// Stop the timer until `unpause`; the accumulated time is kept.
    pub fn pause(&mut self)
        ensures
            final(self)@ == (TimerModel { paused: true, ..old(self)@ }),
    {
        self.paused = true;
    }

    /// Let the timer run again from where it stopped.
    pub fn unpause(&mut self)
        ensures
            final(self)@ == (TimerModel { paused: false, ..old(self)@ }),
    {
        self.paused = false;
    }

    /// Throw the accumulated time away.
    pub fn reset(&mut self)
        ensures
            final(self)@ == (TimerModel { elapsed: 0, ..old(self)@ }),
    {
        self.elapsed_ms = 0;
    }
}

} // verus!
