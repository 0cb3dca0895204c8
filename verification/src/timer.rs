//! A repeating countdown driven by per-frame elapsed time.
//!
//! The difficulty ramp, the zombie spawner and the rapid-fire weapon all run
//! on one of these: `tick(dt)` advances the countdown and reports whether the
//! period completed during this frame; on completion the leftover time is
//! carried into the next period.

use vstd::prelude::*;

verus! {

/// Ghost image of a [`TickTimer`]: the period and the time already elapsed
/// within the current period, both in milliseconds.
pub struct TimerModel {
    pub duration: int,
    pub elapsed: int,
}

impl TimerModel {
    /// A timer is well formed when its period is positive and the elapsed
    /// time has not yet reached it.
    pub open spec fn wf(self) -> bool {
        0 < self.duration && 0 <= self.elapsed < self.duration
    }

    /// Does a tick of `dt` milliseconds complete the current period?
    pub open spec fn fires(self, dt: int) -> bool {
        self.elapsed + dt >= self.duration
    }

    /// The timer after a tick of `dt` milliseconds: on completion the
    /// remainder is carried into the next period, otherwise time accumulates.
    pub open spec fn after_tick(self, dt: int) -> TimerModel {
        if self.fires(dt) {
            TimerModel { duration: self.duration, elapsed: (self.elapsed + dt) % self.duration }
        } else {
            TimerModel { duration: self.duration, elapsed: self.elapsed + dt }
        }
    }

    /// A fresh timer with period `duration`.
    pub open spec fn fresh(duration: int) -> TimerModel {
        TimerModel { duration: duration, elapsed: 0 }
    }
}

/// A repeating countdown with a period in milliseconds.
#[derive(Clone, Copy, Debug, PartialEq, Eq, Structural)]
pub struct TickTimer {
    pub duration_ms: u32,
    pub elapsed_ms: u32,
}

impl View for TickTimer {
    type V = TimerModel;

    open spec fn view(&self) -> TimerModel {
        TimerModel { duration: self.duration_ms as int, elapsed: self.elapsed_ms as int }
    }
}

impl TickTimer {
    /// Starts a repeating countdown with the given period.
    pub fn new(duration_ms: u32) -> (t: TickTimer)
        requires
            duration_ms > 0,
        ensures
            t@ == TimerModel::fresh(duration_ms as int),
            t@.wf(),
    {
        TickTimer { duration_ms, elapsed_ms: 0 }
    }

    /// The period, in milliseconds.
    pub fn duration_ms(&self) -> (d: u32)
        ensures
            d as int == self@.duration,
    {
        self.duration_ms
    }

    /// Advances the countdown by `dt` milliseconds and reports whether the
    /// period completed during this tick.
    pub fn tick(&mut self, dt: u32) -> (fired: bool)
        requires
            old(self)@.wf(),
        ensures
            final(self)@.wf(),
            fired == old(self)@.fires(dt as int),
            final(self)@ == old(self)@.after_tick(dt as int),
    {
        let sum: u64 = self.elapsed_ms as u64 + dt as u64;
        if sum >= self.duration_ms as u64 {
            self.elapsed_ms = (sum % self.duration_ms as u64) as u32;
            true
        } else {
            self.elapsed_ms = sum as u32;
            false
        }
    }

    /// Restarts the current period from zero, keeping the duration.
    pub fn reset(&mut self)
        ensures
            final(self)@ == TimerModel::fresh(old(self)@.duration),
    {
        self.elapsed_ms = 0;
    }

    /// Changes the period and restarts the countdown from zero: a duration
    /// change takes effect as a whole fresh period.
    pub fn set_duration(&mut self, duration_ms: u32)
        requires
            duration_ms > 0,
        ensures
            final(self)@ == TimerModel::fresh(duration_ms as int),
            final(self)@.wf(),
    {
        self.duration_ms = duration_ms;
        self.elapsed_ms = 0;
    }
}

} // verus!
