//! The live entities of a round — zombies, bullets and the player's position —
//! with their per-frame movement.
//!
//! Positions are in milli-pixels and frames advance by `dt` milliseconds, so a
//! speed `v` in milli-pixels per second moves an entity by `v * dt / 1000`
//! milli-pixels per frame, the division truncating toward zero.

use vstd::prelude::*;
use crate::{
    BOTTOM_Y, BULLET_CULL_X, BULLET_CULL_Y, BULLET_MUZZLE_OFFSET_Y, BULLET_SPEED_PX_PER_S,
    PLAYER_SPEED_MILLI_PER_MS, PLAYER_X_LIMIT, PLAYER_Y, SPAWN_X_MAX, SPAWN_X_MIN, SPAWN_Y,
    Y_FLOOR,
};

verus! {

// ---------------------------------------------------------------- zombies

/// Ghost image of a [`Zombie`]: position in milli-pixels, health in hit
/// points.
pub struct ZombieModel {
    pub x: int,
    pub y: int,
    pub health: int,
    pub max_health: int,
}

impl ZombieModel {
    /// A live zombie stands inside the horizontal spawn band, between the
    /// position floor and the spawn row, and its health is positive and never
    /// above the health it spawned with.
    pub open spec fn wf(self) -> bool {
        &&& SPAWN_X_MIN as int <= self.x <= SPAWN_X_MAX as int
        &&& Y_FLOOR as int <= self.y <= SPAWN_Y as int
        &&& 1 <= self.health <= self.max_health
        &&& self.max_health <= u32::MAX as int
    }

    /// Where the zombie stands after falling for `dt` milliseconds at
    /// `speed` milli-pixels per second, clamped at the position floor.
    pub open spec fn after_fall(self, speed: int, dt: int) -> ZombieModel {
        let fallen = self.y - speed * dt / 1000;
        ZombieModel {
            y: if fallen < Y_FLOOR as int {
                Y_FLOOR as int
            } else {
                fallen
            },
            ..self
        }
    }

    /// A zombie freshly placed on the spawn row.
    pub open spec fn spawned(x: int, health: int) -> ZombieModel {
        ZombieModel { x: x, y: SPAWN_Y as int, health: health, max_health: health }
    }
}

/// A zombie: position in milli-pixels and current health in hit points.
/// `health` may only be observed positive; a zombie whose health drops to or
/// below zero is destroyed by combat resolution in the same frame.
#[derive(Clone, Copy, Debug, PartialEq, Eq, Structural)]
pub struct Zombie {
    pub x: i64,
    pub y: i64,
    pub health: i64,
    pub max_health: u32,
}

impl View for Zombie {
    type V = ZombieModel;

    open spec fn view(&self) -> ZombieModel {
        ZombieModel {
            x: self.x as int,
            y: self.y as int,
            health: self.health as int,
            max_health: self.max_health as int,
        }
    }
}

/// The ghost image of a whole zombie column.
pub open spec fn zombies_view(s: Seq<Zombie>) -> Seq<ZombieModel> {
    s.map_values(|z: Zombie| z@)
}

/// Every zombie of the sequence is well formed.
pub open spec fn all_zombies_wf(s: Seq<ZombieModel>) -> bool {
    forall|i: int| 0 <= i < s.len() ==> #[trigger] s[i].wf()
}

/// The whole column after falling for one frame.
pub open spec fn zombies_after_fall(s: Seq<ZombieModel>, speed: int, dt: int) -> Seq<ZombieModel> {
    s.map_values(|z: ZombieModel| z.after_fall(speed, dt))
}

/// How far a zombie falls in one frame, in milli-pixels.
fn fall_delta(speed: u32, dt: u32) -> (d: u64)
    ensures
        d as int == speed as int * dt as int / 1000,
        d as int <= 18_446_744_073_709_551,
{
    assert(speed as int * dt as int <= 0xffff_fffe_0000_0001) by (nonlinear_arith)
        requires
            speed as int <= 0xffff_ffff,
            dt as int <= 0xffff_ffff,
            speed as int >= 0,
            dt as int >= 0,
    ;
    let prod: u64 = speed as u64 * dt as u64;
    let d: u64 = prod / 1000;
    assert(prod as int / 1000 <= 18_446_744_073_709_551) by (nonlinear_arith)
        requires
            0 <= prod as int <= 0xffff_ffff_ffff_ffff,
    ;
    d
}

/// Moves every zombie down by this frame's fall, clamped at the position
/// floor.
pub fn move_zombies(zombies: &mut Vec<Zombie>, speed: u32, dt: u32)
    requires
        all_zombies_wf(zombies_view(old(zombies)@)),
    ensures
        zombies_view(final(zombies)@) == zombies_after_fall(
            zombies_view(old(zombies)@),
            speed as int,
            dt as int,
        ),
        all_zombies_wf(zombies_view(final(zombies)@)),
{
    let d = fall_delta(speed, dt);
    let ghost orig_raw = zombies@;
    let ghost orig = zombies_view(zombies@);
    let mut i: usize = 0;
    while i < zombies.len()
        invariant
            zombies@.len() == orig.len(),
            orig_raw.len() == orig.len(),
            i <= zombies@.len(),
            forall|j: int| i as int <= j < orig.len() ==> zombies@[j] == #[trigger] orig_raw[j],
            forall|j: int| 0 <= j < orig.len() ==> #[trigger] orig[j] == orig_raw[j]@,
            forall|j: int| 0 <= j < i as int ==> #[trigger] zombies@[j]@ == orig[j].after_fall(
                speed as int,
                dt as int,
            ),
            all_zombies_wf(orig),
            d as int == speed as int * dt as int / 1000,
            d as int <= 18_446_744_073_709_551,
        decreases zombies@.len() - i,
    {
        let z = zombies[i];
        assert(z@ == orig[i as int]);
        assert(orig[i as int].wf());
        let fallen: i64 = z.y - d as i64;
        let ny: i64 = if fallen < Y_FLOOR {
            Y_FLOOR
        } else {
            fallen
        };
        let nz = Zombie { y: ny, ..z };
        assert(nz@ == orig[i as int].after_fall(speed as int, dt as int));
        zombies.set(i, nz);
        i = i + 1;
    }
    assert forall|j: int| 0 <= j < orig.len() implies #[trigger] zombies_view(zombies@)[j]
        == zombies_after_fall(orig, speed as int, dt as int)[j] by {
        assert(zombies_view(zombies@)[j] == zombies@[j]@);
        assert(zombies_after_fall(orig, speed as int, dt as int)[j] == orig[j].after_fall(
            speed as int,
            dt as int,
        ));
    }
    assert(zombies_view(zombies@) =~= zombies_after_fall(orig, speed as int, dt as int));
    assert forall|j: int| 0 <= j < orig.len() implies #[trigger] zombies_view(zombies@)[j].wf() by {
        assert(orig[j].wf());
    }
}

/// Appends one zombie on the spawn row at horizontal position `x`, with both
/// its current and its maximum health set to the wave's current health stat.
pub fn spawn_zombie(zombies: &mut Vec<Zombie>, x: i64, health: u32)
    requires
        SPAWN_X_MIN <= x < SPAWN_X_MAX,
        health >= 1,
    ensures
        zombies_view(final(zombies)@) == zombies_view(old(zombies)@).push(
            ZombieModel::spawned(x as int, health as int),
        ),
        all_zombies_wf(zombies_view(old(zombies)@)) ==> all_zombies_wf(
            zombies_view(final(zombies)@),
        ),
{
    let z = Zombie { x, y: SPAWN_Y, health: health as i64, max_health: health };
    zombies.push(z);
    assert(zombies_view(zombies@) =~= zombies_view(old(zombies)@).push(
        ZombieModel::spawned(x as int, health as int),
    ));
}

/// Render-time width of a zombie's health bar, in milli-pixels: the 25 px bar
/// scaled by the health ratio, truncating.
pub fn healthbar_width(health: i64, max_health: u32) -> (w: i64)
    requires
        1 <= health <= max_health as i64,
    ensures
        w as int == 25_000 * health as int / max_health as int,
        0 <= w <= 25_000,
{
    assert(25_000 * health as int <= 25_000 * max_health as int) by (nonlinear_arith)
        requires
            health as int <= max_health as int,
    ;
    assert(25_000 * health as int >= 25_000) by (nonlinear_arith)
        requires
            health as int >= 1,
    ;
    let scaled: i64 = 25_000 * health;
    let w: i64 = scaled / (max_health as i64);
    assert(scaled as int / max_health as int <= 25_000) by (nonlinear_arith)
        requires
            scaled as int <= 25_000 * max_health as int,
            max_health as int >= 1,
    ;
    assert(scaled as int / max_health as int >= 0) by (nonlinear_arith)
        requires
            scaled as int >= 0,
            max_health as int >= 1,
    ;
    w
}

// ---------------------------------------------------------------- bullets

/// Ghost image of a [`Bullet`]: position in milli-pixels and a direction in
/// milli-units.
pub struct BulletModel {
    pub x: int,
    pub y: int,
    pub dx: int,
    pub dy: int,
}

impl BulletModel {
    /// A live bullet sits inside the cull bounds, never below the player row,
    /// and flies along a unit direction (milli-unit components, squared norm
    /// within rounding of one) that points upward.
    pub open spec fn wf(self) -> bool {
        &&& -BULLET_CULL_X as int <= self.x <= BULLET_CULL_X as int
        &&& PLAYER_Y as int <= self.y <= BULLET_CULL_Y as int
        &&& -1000 <= self.dx <= 1000
        &&& 1 <= self.dy <= 1000
        &&& 999_000 <= self.dx * self.dx + self.dy * self.dy <= 1_001_000
    }

    /// Displacement along one direction component over `dt` milliseconds:
    /// the milli-unit component times the bullet speed, scaled to this
    /// frame, truncating toward zero.
    pub open spec fn dir_delta(c: int, dt: int) -> int {
        if c >= 0 {
            c * BULLET_SPEED_PX_PER_S as int * dt / 1000
        } else {
            -((-c) * BULLET_SPEED_PX_PER_S as int * dt / 1000)
        }
    }

    /// Where the bullet flies to in one frame.
    pub open spec fn after_flight(self, dt: int) -> BulletModel {
        BulletModel {
            x: self.x + Self::dir_delta(self.dx, dt),
            y: self.y + Self::dir_delta(self.dy, dt),
            ..self
        }
    }

    /// A bullet stays live while it is at or below the top cull row and
    /// within the horizontal cull bounds.
    pub open spec fn in_bounds(self) -> bool {
        &&& self.y <= BULLET_CULL_Y as int
        &&& -BULLET_CULL_X as int <= self.x <= BULLET_CULL_X as int
    }
}

/// A bullet: position in milli-pixels, direction in milli-units (a fixed
/// point unit vector; straight up is `(0, 1000)`).
#[derive(Clone, Copy, Debug, PartialEq, Eq, Structural)]
pub struct Bullet {
    pub x: i64,
    pub y: i64,
    pub dx: i64,
    pub dy: i64,
}

impl View for Bullet {
    type V = BulletModel;

    open spec fn view(&self) -> BulletModel {
        BulletModel {
            x: self.x as int,
            y: self.y as int,
            dx: self.dx as int,
            dy: self.dy as int,
        }
    }
}

/// The ghost image of all live bullets.
pub open spec fn bullets_view(s: Seq<Bullet>) -> Seq<BulletModel> {
    s.map_values(|b: Bullet| b@)
}

/// Every bullet of the sequence is well formed.
pub open spec fn all_bullets_wf(s: Seq<BulletModel>) -> bool {
    forall|i: int| 0 <= i < s.len() ==> #[trigger] s[i].wf()
}

/// The bullets after one frame: each flies along its direction, and those
/// leaving the cull bounds are discarded.
pub open spec fn bullets_after_flight(s: Seq<BulletModel>, dt: int) -> Seq<BulletModel>
    decreases s.len(),
{
    if s.len() == 0 {
        Seq::empty()
    } else {
        let moved = s[0].after_flight(dt);
        let rest = bullets_after_flight(s.skip(1), dt);
        if moved.in_bounds() {
            seq![moved] + rest
        } else {
            rest
        }
    }
}

/// Displacement along one direction component over `dt` milliseconds.
fn dir_delta_exec(c: i64, dt: u32) -> (d: i64)
    requires
        -1000 <= c <= 1000,
    ensures
        d as int == BulletModel::dir_delta(c as int, dt as int),
        -3_435_973_836_800 <= d <= 3_435_973_836_800,
{
    let mag: u64 = if c < 0 {
        (-c) as u64
    } else {
        c as u64
    };
    assert(mag as int * BULLET_SPEED_PX_PER_S as int <= 800_000) by (nonlinear_arith)
        requires
            0 <= mag as int <= 1000,
    ;
    let scaled: u64 = mag * 800;
    assert(scaled as int * dt as int <= 3_435_973_836_800_000) by (nonlinear_arith)
        requires
            0 <= scaled as int <= 800_000,
            0 <= dt as int <= 0xffff_ffff,
    ;
    let total: u64 = scaled * dt as u64;
    let q: u64 = total / 1000;
    assert(q as int <= 3_435_973_836_800);
    if c < 0 {
        -(q as i64)
    } else {
        q as i64
    }
}

/// Flies every bullet one frame along its direction and discards those that
/// left the cull bounds.
pub fn move_bullets(bullets: &mut Vec<Bullet>, dt: u32)
    requires
        all_bullets_wf(bullets_view(old(bullets)@)),
    ensures
        bullets_view(final(bullets)@) == bullets_after_flight(
            bullets_view(old(bullets)@),
            dt as int,
        ),
        all_bullets_wf(bullets_view(final(bullets)@)),
{
    let ghost orig = bullets_view(bullets@);
    let mut kept: Vec<Bullet> = Vec::new();
    let mut i: usize = 0;
    assert(orig.skip(0) =~= orig);
    assert(bullets_view(kept@) =~= Seq::<BulletModel>::empty());
    assert(bullets_view(kept@) + bullets_after_flight(orig, dt as int) =~= bullets_after_flight(
        orig,
        dt as int,
    ));
    while i < bullets.len()
        invariant
            i <= bullets@.len(),
            bullets_view(bullets@) == orig,
            all_bullets_wf(orig),
            all_bullets_wf(bullets_view(kept@)),
            bullets_after_flight(orig, dt as int) == bullets_view(kept@) + bullets_after_flight(
                orig.skip(i as int),
                dt as int,
            ),
        decreases bullets@.len() - i,
    {
        let b = bullets[i];
        assert(bullets_view(bullets@)[i as int] == bullets@[i as int]@);
        assert(b@ == orig[i as int]);
        assert(orig[i as int].wf());
        let mdx = dir_delta_exec(b.dx, dt);
        let mdy = dir_delta_exec(b.dy, dt);
        let moved = Bullet { x: b.x + mdx, y: b.y + mdy, dx: b.dx, dy: b.dy };
        assert(moved@ == orig[i as int].after_flight(dt as int));
        assert(orig.skip(i as int)[0] == orig[i as int]);
        assert(orig.skip(i as int).skip(1) =~= orig.skip(i as int + 1));
        if moved.y <= BULLET_CULL_Y && moved.x >= -BULLET_CULL_X && moved.x <= BULLET_CULL_X {
            assert(moved@.in_bounds());
            assert(moved@.wf());
            let ghost kept_before = bullets_view(kept@);
            kept.push(moved);
            assert(bullets_view(kept@) =~= kept_before.push(moved@));
            assert(bullets_view(kept@) + bullets_after_flight(orig.skip(i as int + 1), dt as int)
                =~= kept_before + (seq![moved@] + bullets_after_flight(
                orig.skip(i as int + 1),
                dt as int,
            )));
        } else {
            assert(!moved@.in_bounds());
        }
        i = i + 1;
    }
    assert(orig.skip(bullets@.len() as int) =~= Seq::<BulletModel>::empty());
    assert(bullets_after_flight(orig, dt as int) =~= bullets_view(kept@));
    *bullets = kept;
}

// ---------------------------------------------------------------- player

/// The player's x after one frame of movement, clamped to the play field:
/// the held movement keys drive it left or right at the player speed, and
/// holding both (or neither) leaves it in place.
pub open spec fn player_after_move(x: int, left: bool, right: bool, dt: int) -> int {
    let step = PLAYER_SPEED_MILLI_PER_MS as int * dt;
    let moved = if right == left {
        x
    } else if right {
        x + step
    } else {
        x - step
    };
    if moved > PLAYER_X_LIMIT as int {
        PLAYER_X_LIMIT as int
    } else if moved < -PLAYER_X_LIMIT as int {
        -PLAYER_X_LIMIT as int
    } else {
        moved
    }
}

/// Moves the player's x one frame by the held movement keys, clamped to the
/// play field.
pub fn player_step(x: i64, left: bool, right: bool, dt: u32) -> (nx: i64)
    requires
        -PLAYER_X_LIMIT <= x <= PLAYER_X_LIMIT,
    ensures
        nx as int == player_after_move(x as int, left, right, dt as int),
        -PLAYER_X_LIMIT <= nx <= PLAYER_X_LIMIT,
{
    let step: i64 = PLAYER_SPEED_MILLI_PER_MS * (dt as i64);
    let moved: i64 = if right == left {
        x
    } else if right {
        x + step
    } else {
        x - step
    };
    if moved > PLAYER_X_LIMIT {
        PLAYER_X_LIMIT
    } else if moved < -PLAYER_X_LIMIT {
        -PLAYER_X_LIMIT
    } else {
        moved
    }
}

// ---------------------------------------------------------------- loss check

/// Has any zombie crossed the lower play-field boundary?
pub open spec fn any_zombie_past_bottom(s: Seq<ZombieModel>) -> bool {
    exists|i: int| 0 <= i < s.len() && #[trigger] s[i].y < BOTTOM_Y as int
}

/// Reports whether any zombie has crossed the lower play-field boundary.
pub fn check_zombie_bottom(zombies: &Vec<Zombie>) -> (lost: bool)
    ensures
        lost == any_zombie_past_bottom(zombies_view(zombies@)),
{
    let mut i: usize = 0;
    while i < zombies.len()
        invariant
            i <= zombies@.len(),
            forall|j: int| 0 <= j < i as int ==> #[trigger] zombies_view(zombies@)[j].y
                >= BOTTOM_Y as int,
        decreases zombies@.len() - i,
    {
        if zombies[i].y < BOTTOM_Y {
            assert(zombies_view(zombies@)[i as int].y < BOTTOM_Y as int);
            return true;
        }
        i = i + 1;
    }
    false
}

/// Where a bullet leaves the muzzle: just above the player.
pub open spec fn muzzle_y() -> int {
    PLAYER_Y as int + BULLET_MUZZLE_OFFSET_Y as int
}

} // verus!
