//! The weapon controller: when the fire input produces a shot, and which
//! bullets a shot emits.
//!
//! The pistol fires one bullet straight up on a fresh press of the fire key,
//! debounced while the key stays held. The minigun, while the key is held,
//! fires one bullet every [`MINIGUN_FIRE_INTERVAL_MS`] on an internal
//! repeating timer that advances only while fire is held. The shotgun fires
//! a fan of five bullets on a fresh press.

use vstd::prelude::*;
use crate::entities::{all_bullets_wf, bullets_view, muzzle_y, Bullet, BulletModel};
use crate::timer::{TickTimer, TimerModel};
use crate::{PLAYER_X_LIMIT, PLAYER_Y, WEAPON_MINIGUN, WEAPON_SHOTGUN};

verus! {

/// What the fire input produces this frame: the minigun's timer state and
/// whether a shot goes off.
///
/// With the minigun active, holding fire advances the repeating fire timer
/// and a shot goes off each time it completes; releasing fire freezes the
/// timer. With any other weapon a shot goes off exactly on a fresh press.
pub open spec fn fire_decision_model(
    timer: TimerModel,
    active: int,
    held: bool,
    pressed: bool,
    dt: int,
) -> (TimerModel, bool) {
    if active == WEAPON_MINIGUN as int {
        if held {
            (timer.after_tick(dt), timer.fires(dt))
        } else {
            (timer, false)
        }
    } else {
        (timer, pressed)
    }
}

/// Decides whether a shot goes off this frame, advancing the minigun's fire
/// timer exactly as [`fire_decision_model`] says.
pub fn fire_decision(
    timer: &mut TickTimer,
    active: usize,
    held: bool,
    pressed: bool,
    dt: u32,
) -> (shoot: bool)
    requires
        old(timer)@.wf(),
    ensures
        final(timer)@.wf(),
        (final(timer)@, shoot) == fire_decision_model(
            old(timer)@,
            active as int,
            held,
            pressed,
            dt as int,
        ),
{
    if active == WEAPON_MINIGUN {
        if held {
            timer.tick(dt)
        } else {
            false
        }
    } else {
        pressed
    }
}

/// The bullet a straight shot emits, at the muzzle above the player.
pub open spec fn straight_bullet(px: int) -> BulletModel {
    BulletModel { x: px, y: muzzle_y(), dx: 0, dy: 1000 }
}

/// The five bullets of a shotgun blast: a fan of unit directions around
/// straight up (angles of about -0.2, -0.1, 0, 0.1 and 0.2 radians, in
/// milli-units).
pub open spec fn spread_bullets(px: int) -> Seq<BulletModel> {
    seq![
        BulletModel { x: px, y: muzzle_y(), dx: -195, dy: 981 },
        BulletModel { x: px, y: muzzle_y(), dx: -99, dy: 995 },
        BulletModel { x: px, y: muzzle_y(), dx: 0, dy: 1000 },
        BulletModel { x: px, y: muzzle_y(), dx: 99, dy: 995 },
        BulletModel { x: px, y: muzzle_y(), dx: 195, dy: 981 },
    ]
}

/// What one shot emits: the shotgun its fan, every other weapon a single
/// straight bullet.
pub open spec fn fired_bullets(px: int, active: int) -> Seq<BulletModel> {
    if active == WEAPON_SHOTGUN as int {
        spread_bullets(px)
    } else {
        seq![straight_bullet(px)]
    }
}

/// Appends the bullets of one shot from player position `px` with the
/// active weapon.
pub fn spawn_bullets(bullets: &mut Vec<Bullet>, px: i64, active: usize)
    requires
        -PLAYER_X_LIMIT <= px <= PLAYER_X_LIMIT,
        all_bullets_wf(bullets_view(old(bullets)@)),
    ensures
        bullets_view(final(bullets)@) == bullets_view(old(bullets)@) + fired_bullets(
            px as int,
            active as int,
        ),
        all_bullets_wf(bullets_view(final(bullets)@)),
{
    let my: i64 = PLAYER_Y + crate::BULLET_MUZZLE_OFFSET_Y;
    let ghost before = bullets_view(bullets@);
    if active == WEAPON_SHOTGUN {
        bullets.push(Bullet { x: px, y: my, dx: -195, dy: 981 });
        bullets.push(Bullet { x: px, y: my, dx: -99, dy: 995 });
        bullets.push(Bullet { x: px, y: my, dx: 0, dy: 1000 });
        bullets.push(Bullet { x: px, y: my, dx: 99, dy: 995 });
        bullets.push(Bullet { x: px, y: my, dx: 195, dy: 981 });
        assert(bullets_view(bullets@) =~= before + spread_bullets(px as int));
    } else {
        bullets.push(Bullet { x: px, y: my, dx: 0, dy: 1000 });
        assert(bullets_view(bullets@) =~= before + seq![straight_bullet(px as int)]);
    }
    assert forall|k: int| 0 <= k < bullets_view(bullets@).len() implies #[trigger] bullets_view(
        bullets@,
    )[k].wf() by {
        let fb = fired_bullets(px as int, active as int);
        assert(bullets_view(bullets@) == before + fb);
        if k < before.len() {
            assert(before[k].wf());
            assert(bullets_view(bullets@)[k] == before[k]);
        } else {
            let j = k - before.len();
            assert(bullets_view(bullets@)[k] == fb[j]);
            if active as int == WEAPON_SHOTGUN as int {
                assert((-195) * (-195) + 981 * 981 == 1_000_386);
                assert((-99) * (-99) + 995 * 995 == 999_826);
                assert(99 * 99 + 995 * 995 == 999_826);
                assert(195 * 195 + 981 * 981 == 1_000_386);
                assert(fb[0].wf());
                assert(fb[1].wf());
                assert(fb[2].wf());
                assert(fb[3].wf());
                assert(fb[4].wf());
            } else {
                assert(fb[0].wf());
            }
        }
    }
}

} // verus!
