//! Core logic of a 2D "survive the zombie wave" shooter: the difficulty-ramping
//! wave spawner, weapon fire patterns, projectile/zombie combat resolution with
//! scoring, the survival clock, the purchase store, and the round state machine.
//!
//! Rendering, audio, asset loading and input polling belong to the surrounding
//! engine; this crate owns the numeric policy and the state machines, and hands
//! the engine plain values (spawn requests, score indicator events, sound and
//! overlay flags).
//!
//! Every quantity is fixed point so that the policy is exact:
//! positions and speeds are in milli-pixels (1 pixel = 1000), time is in
//! milliseconds, health is in whole hit points.

use vstd::prelude::*;

pub mod combat;
pub mod difficulty;
pub mod entities;
pub mod floating;
pub mod game;
pub mod progression;
pub mod rng;
pub mod timer;
pub mod weapon_fire;

verus! {

// ---- Difficulty policy (speeds in milli-pixels per second, times in ms) ----

/// Downward speed of a freshly started wave's zombies: 50 px/s.
pub const INITIAL_ZOMBIE_SPEED: u32 = 50_000;

/// Speed gained at each ramp event: 10 px/s.
pub const SPEED_INCREMENT: u32 = 10_000;

/// Health of a zombie spawned before any ramp event, in hit points.
pub const INITIAL_ZOMBIE_HEALTH: u32 = 50;

/// Health gained by newly spawned zombies at each ramp event.
pub const HEALTH_INCREMENT: u32 = 20;

/// Delay between two zombie spawns at the start of a round: 2.5 s.
pub const INITIAL_SPAWN_INTERVAL_MS: u32 = 2_500;

/// How much the spawn interval shrinks at each ramp event: 0.2 s.
pub const SPAWN_DECREMENT_MS: u32 = 200;

/// The spawn interval never shrinks below this: 0.5 s.
pub const MIN_SPAWN_INTERVAL_MS: u32 = 500;

/// Period of the difficulty ramp: one ramp event every 8 s.
pub const RAMP_INTERVAL_MS: u32 = 8_000;

// ---- Play field (positions in milli-pixels) ----

/// Lowest x at which a zombie may spawn: -375 px.
pub const SPAWN_X_MIN: i64 = -375_000;

/// Exclusive upper bound on the zombie spawn x: 375 px.
pub const SPAWN_X_MAX: i64 = 375_000;

/// Every zombie spawns at this y, the top of the play field: 250 px.
pub const SPAWN_Y: i64 = 250_000;

/// A zombie whose y falls below this loses the round: -300 px.
pub const BOTTOM_Y: i64 = -300_000;

/// Positions are clamped here, far below anything visible, so that a zombie
/// left falling during the game-over screen keeps a bounded coordinate.
pub const Y_FLOOR: i64 = -1_000_000_000;

/// The player moves along this y: -250 px.
pub const PLAYER_Y: i64 = -250_000;

/// The player's x is clamped to [-375, 375] px.
pub const PLAYER_X_LIMIT: i64 = 375_000;

/// Player speed: 500 px/s (500 milli-pixels per millisecond).
pub const PLAYER_SPEED_MILLI_PER_MS: i64 = 500;

// ---- Bullets ----

/// Bullet speed along its direction: 800 px/s.
pub const BULLET_SPEED_PX_PER_S: i64 = 800;

/// Bullets leave the muzzle this far above the player: 30 px.
pub const BULLET_MUZZLE_OFFSET_Y: i64 = 30_000;

/// A bullet above this y is discarded: 300 px.
pub const BULLET_CULL_Y: i64 = 300_000;

/// A bullet with |x| beyond this is discarded: 400 px.
pub const BULLET_CULL_X: i64 = 400_000;

// ---- Combat ----

/// A bullet hits a zombie when their distance is strictly below 25 px.
pub const HIT_RADIUS_MILLI: i64 = 25_000;

/// Square of the hit radius; collisions compare squared distances.
pub const HIT_RADIUS_SQ: i64 = 625_000_000;

/// Hit points removed from a zombie by one bullet.
pub const HIT_DAMAGE: i64 = 25;

/// Score awarded for landing a hit.
pub const HIT_SCORE: u32 = 10;

/// Score awarded on top of the hit score when the hit kills.
pub const KILL_SCORE: u32 = 90;

// ---- Weapons ----

/// Index of the pistol: one shot straight up per press.
pub const WEAPON_PISTOL: usize = 0;

/// Index of the shotgun: a five-bullet fan per press.
pub const WEAPON_SHOTGUN: usize = 1;

/// Index of the minigun: one shot every interval while fire is held.
pub const WEAPON_MINIGUN: usize = 2;

/// The minigun's fire interval: 0.05 s.
pub const MINIGUN_FIRE_INTERVAL_MS: u32 = 50;

// ---- Score indicators ----

/// How long a score indicator stays on screen: 0.5 s.
pub const INDICATOR_LIFETIME_MS: u32 = 500;

/// A score indicator drifts upward at 20 px/s: 20 milli-pixels per ms.
pub const INDICATOR_DRIFT_MILLI_PER_MS: i64 = 20;

/// Lowest horizontal jitter of a fresh indicator: -10 px.
pub const INDICATOR_OFF_X_MIN: i64 = -10_000;

/// Exclusive upper bound on the horizontal jitter: 10 px.
pub const INDICATOR_OFF_X_MAX: i64 = 10_000;

/// Lowest vertical jitter of a fresh indicator: 10 px.
pub const INDICATOR_OFF_Y_MIN: i64 = 10_000;

/// Exclusive upper bound on the vertical jitter: 25 px.
pub const INDICATOR_OFF_Y_MAX: i64 = 25_000;

/// No indicator ever drifts above this: the spawn row plus the largest
/// jitter plus a whole lifetime of drift.
pub const INDICATOR_Y_MAX: i64 = 285_000;

} // verus!
