//! The difficulty controller: zombie speed, health and spawn interval, and
//! the periodic ramp that escalates them.
//!
//! Every [`RAMP_INTERVAL_MS`] milliseconds one ramp event fires: speed and
//! health grow by a fixed increment and the spawn interval shrinks by a fixed
//! decrement, floored at [`MIN_SPAWN_INTERVAL_MS`].

use vstd::prelude::*;
use crate::timer::{TickTimer, TimerModel};
use crate::{
    HEALTH_INCREMENT, INITIAL_SPAWN_INTERVAL_MS, INITIAL_ZOMBIE_HEALTH, INITIAL_ZOMBIE_SPEED,
    MIN_SPAWN_INTERVAL_MS, RAMP_INTERVAL_MS, SPAWN_DECREMENT_MS, SPEED_INCREMENT,
};

verus! {

/// Addition capped at `u32::MAX`, mirroring the executable saturating step.
pub open spec fn sat_add_u32(a: int, b: int) -> int {
    if a + b > u32::MAX as int {
        u32::MAX as int
    } else {
        a + b
    }
}

/// Ghost image of [`ZombieStats`]: speed in milli-pixels per second, spawn
/// interval in milliseconds, health in hit points, and the ramp countdown.
pub struct StatsModel {
    pub speed: int,
    pub spawn_interval: int,
    pub health: int,
    pub ramp: TimerModel,
}

impl StatsModel {
    /// The stats a round starts with.
    pub open spec fn initial() -> StatsModel {
        StatsModel {
            speed: INITIAL_ZOMBIE_SPEED as int,
            spawn_interval: INITIAL_SPAWN_INTERVAL_MS as int,
            health: INITIAL_ZOMBIE_HEALTH as int,
            ramp: TimerModel::fresh(RAMP_INTERVAL_MS as int),
        }
    }

    /// Well-formedness: the ramp timer runs on the fixed period, the spawn
    /// interval stays between its floor and its starting value, and speed and
    /// health are positive.
    pub open spec fn wf(self) -> bool {
        &&& self.ramp.wf()
        &&& self.ramp.duration == RAMP_INTERVAL_MS as int
        &&& MIN_SPAWN_INTERVAL_MS as int <= self.spawn_interval <= INITIAL_SPAWN_INTERVAL_MS as int
        &&& 1 <= self.speed <= u32::MAX as int
        &&& 1 <= self.health <= u32::MAX as int
    }

    /// One ramp event: speed and health grow, the spawn interval shrinks but
    /// never below its floor. The ramp countdown is handled by the caller.
    pub open spec fn ramped(self) -> StatsModel {
        StatsModel {
            speed: sat_add_u32(self.speed, SPEED_INCREMENT as int),
            spawn_interval: if self.spawn_interval - SPAWN_DECREMENT_MS as int
                > MIN_SPAWN_INTERVAL_MS as int {
                self.spawn_interval - SPAWN_DECREMENT_MS as int
            } else {
                MIN_SPAWN_INTERVAL_MS as int
            },
            health: sat_add_u32(self.health, HEALTH_INCREMENT as int),
            ramp: self.ramp,
        }
    }

    /// The stats after one frame of `dt` milliseconds: the ramp countdown
    /// advances, and if it completes the ramp event applies.
    pub open spec fn after_tick(self, dt: int) -> StatsModel {
        let advanced = StatsModel { ramp: self.ramp.after_tick(dt), ..self };
        if self.ramp.fires(dt) {
            advanced.ramped()
        } else {
            advanced
        }
    }
}

/// The escalating zombie parameters: speed (milli-pixels per second), spawn
/// interval (ms), health of newly spawned zombies (hit points), and the
/// repeating ramp countdown.
#[derive(Clone, Copy, Debug, PartialEq, Eq, Structural)]
pub struct ZombieStats {
    pub speed: u32,
    pub spawn_interval_ms: u32,
    pub health: u32,
    pub ramp_timer: TickTimer,
}

impl View for ZombieStats {
    type V = StatsModel;

    open spec fn view(&self) -> StatsModel {
        StatsModel {
            speed: self.speed as int,
            spawn_interval: self.spawn_interval_ms as int,
            health: self.health as int,
            ramp: self.ramp_timer@,
        }
    }
}

impl ZombieStats {
    /// The stats a round starts with.
    pub fn new() -> (s: ZombieStats)
        ensures
            s@ == StatsModel::initial(),
            s@.wf(),
    {
        ZombieStats {
            speed: INITIAL_ZOMBIE_SPEED,
            spawn_interval_ms: INITIAL_SPAWN_INTERVAL_MS,
            health: INITIAL_ZOMBIE_HEALTH,
            ramp_timer: TickTimer::new(RAMP_INTERVAL_MS),
        }
    }

    /// Advances the ramp countdown by `dt` milliseconds; when it completes a
    /// period, applies one ramp event. Reports whether a ramp event fired, so
    /// that the caller can push the new spawn interval to the spawn timer.
    pub fn tick(&mut self, dt: u32) -> (ramped: bool)
        requires
            old(self)@.wf(),
        ensures
            final(self)@.wf(),
            ramped == old(self)@.ramp.fires(dt as int),
            final(self)@ == old(self)@.after_tick(dt as int),
    {
        let fired = self.ramp_timer.tick(dt);
        if fired {
            self.speed = if self.speed <= u32::MAX - SPEED_INCREMENT {
                self.speed + SPEED_INCREMENT
            } else {
                u32::MAX
            };
            self.health = if self.health <= u32::MAX - HEALTH_INCREMENT {
                self.health + HEALTH_INCREMENT
            } else {
                u32::MAX
            };
            let shrunk = self.spawn_interval_ms - SPAWN_DECREMENT_MS;
            self.spawn_interval_ms = if shrunk > MIN_SPAWN_INTERVAL_MS {
                shrunk
            } else {
                MIN_SPAWN_INTERVAL_MS
            };
        }
        fired
    }
}

/// Law of the ramp: at every ramp event whose increments fit the machine
/// word, speed strictly grows by [`SPEED_INCREMENT`], health strictly grows
/// by [`HEALTH_INCREMENT`], and the spawn interval shrinks by
/// [`SPAWN_DECREMENT_MS`] but never below [`MIN_SPAWN_INTERVAL_MS`]:
/// `interval' == max(interval - SPAWN_DECREMENT_MS, MIN_SPAWN_INTERVAL_MS)`.
pub proof fn lemma_ramp_event(s: StatsModel, dt: int)
    requires
        s.wf(),
        s.ramp.fires(dt),
        s.speed + SPEED_INCREMENT as int <= u32::MAX as int,
        s.health + HEALTH_INCREMENT as int <= u32::MAX as int,
    ensures
        s.after_tick(dt).speed == s.speed + SPEED_INCREMENT as int,
        s.after_tick(dt).speed > s.speed,
        s.after_tick(dt).health == s.health + HEALTH_INCREMENT as int,
        s.after_tick(dt).health > s.health,
        s.after_tick(dt).spawn_interval == if s.spawn_interval - SPAWN_DECREMENT_MS as int
            > MIN_SPAWN_INTERVAL_MS as int {
            s.spawn_interval - SPAWN_DECREMENT_MS as int
        } else {
            MIN_SPAWN_INTERVAL_MS as int
        },
        s.after_tick(dt).spawn_interval >= MIN_SPAWN_INTERVAL_MS as int,
{
}

/// Across any frame, ramp event or not, the difficulty never de-escalates:
/// speed and health never shrink and the spawn interval never grows.
pub proof fn lemma_difficulty_monotone(s: StatsModel, dt: int)
    requires
        s.wf(),
        dt >= 0,
    ensures
        s.after_tick(dt).speed >= s.speed,
        s.after_tick(dt).health >= s.health,
        s.after_tick(dt).spawn_interval <= s.spawn_interval,
        s.after_tick(dt).wf(),
{
}

} // verus!
