//! Combat resolution: each frame, every live bullet is checked against every
//! live zombie; a bullet whose centre comes strictly within the hit radius of
//! a zombie is spent on the first such zombie (in column order), deals fixed
//! damage, awards the hit score, and — when the damage brings the zombie's
//! health to or below zero — destroys the zombie and awards the kill score on
//! top.
//!
//! The resolver reports each hit and each kill as a score-indicator event at
//! the struck zombie's position, for the presentation layer to display.

use vstd::prelude::*;
use crate::difficulty::sat_add_u32;
use crate::entities::{
    all_bullets_wf, all_zombies_wf, bullets_view, zombies_view, Bullet, BulletModel, Zombie,
    ZombieModel,
};
use crate::{HIT_DAMAGE, HIT_RADIUS_SQ, HIT_SCORE, KILL_SCORE, SPAWN_X_MAX, SPAWN_X_MIN, SPAWN_Y,
    Y_FLOOR};

verus! {

// ------------------------------------------------------------ hit predicate

/// Squared Euclidean distance between two points, in squared milli-pixels.
pub open spec fn dist_sq(ax: int, ay: int, bx: int, by: int) -> int {
    (ax - bx) * (ax - bx) + (ay - by) * (ay - by)
}

/// A bullet hits a zombie exactly when their squared distance is strictly
/// below the squared hit radius: contact at exactly the hit radius is a miss.
pub open spec fn in_hit_range(b: BulletModel, z: ZombieModel) -> bool {
    dist_sq(b.x, b.y, z.x, z.y) < HIT_RADIUS_SQ as int
}

/// Law of the hit boundary: a bullet at exactly the hit radius does not hit;
/// any bullet strictly inside it does.
pub proof fn lemma_hit_boundary(b: BulletModel, z: ZombieModel)
    ensures
        dist_sq(b.x, b.y, z.x, z.y) == HIT_RADIUS_SQ as int ==> !in_hit_range(b, z),
        dist_sq(b.x, b.y, z.x, z.y) < HIT_RADIUS_SQ as int ==> in_hit_range(b, z),
{
}

/// One hit takes the zombie to or below zero health: the kill check is
/// inclusive at zero.
pub open spec fn hit_kills(z: ZombieModel) -> bool {
    z.health - HIT_DAMAGE as int <= 0
}

// ------------------------------------------------------------ score events

/// What a score indicator announces.
#[derive(Clone, Copy, Debug, PartialEq, Eq, Structural)]
pub enum ScoreKind {
    /// A bullet struck a zombie.
    Hit,
    /// The strike destroyed the zombie.
    Kill,
}

/// Ghost image of a [`ScoreEvent`].
pub struct EventModel {
    pub x: int,
    pub y: int,
    pub amount: int,
    pub kind: ScoreKind,
}

impl EventModel {
    /// Events arise at a live zombie's position with a positive amount.
    pub open spec fn wf(self) -> bool {
        &&& SPAWN_X_MIN as int <= self.x <= SPAWN_X_MAX as int
        &&& Y_FLOOR as int <= self.y <= SPAWN_Y as int
        &&& 1 <= self.amount <= 100
    }
}

/// A request to display a transient score indicator: position in
/// milli-pixels, the amount shown, and whether it announces a hit or a kill.
#[derive(Clone, Copy, Debug, PartialEq, Eq, Structural)]
pub struct ScoreEvent {
    pub x: i64,
    pub y: i64,
    pub amount: u32,
    pub kind: ScoreKind,
}

impl View for ScoreEvent {
    type V = EventModel;

    open spec fn view(&self) -> EventModel {
        EventModel {
            x: self.x as int,
            y: self.y as int,
            amount: self.amount as int,
            kind: self.kind,
        }
    }
}

/// The ghost image of a run of score events.
pub open spec fn events_view(s: Seq<ScoreEvent>) -> Seq<EventModel> {
    s.map_values(|e: ScoreEvent| e@)
}

/// Every event of the sequence is well formed.
pub open spec fn all_events_wf(s: Seq<EventModel>) -> bool {
    forall|i: int| 0 <= i < s.len() ==> #[trigger] s[i].wf()
}

/// The indicator announcing a hit on zombie `z`.
pub open spec fn hit_event(z: ZombieModel) -> EventModel {
    EventModel { x: z.x, y: z.y, amount: HIT_SCORE as int, kind: ScoreKind::Hit }
}

/// The indicator announcing a kill of zombie `z`: it shows the whole score
/// of the kill, hit and kill bonus together.
pub open spec fn kill_event(z: ZombieModel) -> EventModel {
    EventModel {
        x: z.x,
        y: z.y,
        amount: HIT_SCORE as int + KILL_SCORE as int,
        kind: ScoreKind::Kill,
    }
}

// ------------------------------------------------------------ resolution model

/// The first zombie at or after index `i` that bullet `b` hits.
pub open spec fn first_hit_from(b: BulletModel, zs: Seq<ZombieModel>, i: int) -> Option<int>
    decreases zs.len() - i,
{
    if !(0 <= i < zs.len()) {
        Option::None
    } else if in_hit_range(b, zs[i]) {
        Option::Some(i)
    } else {
        first_hit_from(b, zs, i + 1)
    }
}

/// The first zombie, in column order, that bullet `b` hits.
pub open spec fn first_hit(b: BulletModel, zs: Seq<ZombieModel>) -> Option<int> {
    first_hit_from(b, zs, 0)
}

/// A hit found by [`first_hit_from`] names a zombie that really is in range.
pub proof fn lemma_first_hit_bounds(b: BulletModel, zs: Seq<ZombieModel>, i: int)
    requires
        0 <= i,
    ensures
        match first_hit_from(b, zs, i) {
            Option::Some(j) => i <= j < zs.len() && in_hit_range(b, zs[j]),
            Option::None => true,
        },
    decreases zs.len() - i,
{
    if 0 <= i < zs.len() && !in_hit_range(b, zs[i]) {
        lemma_first_hit_bounds(b, zs, i + 1);
    }
}

/// Everything combat resolution produces: the surviving bullets and zombies,
/// the score, and the indicator events, in order.
pub struct CombatModel {
    pub bullets: Seq<BulletModel>,
    pub zombies: Seq<ZombieModel>,
    pub score: int,
    pub events: Seq<EventModel>,
}

/// Resolves the bullets of `bs` in order against the zombie column `zs`.
/// Each bullet is spent on the first zombie it is in range of: the zombie
/// loses [`HIT_DAMAGE`] health and the hit score is awarded; if its health
/// falls to or below zero it is removed and the kill score is awarded on
/// top. A bullet in range of no zombie survives.
pub open spec fn resolve_from(
    bs: Seq<BulletModel>,
    zs: Seq<ZombieModel>,
    score: int,
    events: Seq<EventModel>,
) -> CombatModel
    decreases bs.len(),
{
    if bs.len() == 0 {
        CombatModel { bullets: Seq::empty(), zombies: zs, score: score, events: events }
    } else {
        let b = bs[0];
        match first_hit(b, zs) {
            Option::None => {
                let rest = resolve_from(bs.skip(1), zs, score, events);
                CombatModel { bullets: seq![b] + rest.bullets, ..rest }
            },
            Option::Some(j) => {
                let z = zs[j];
                if hit_kills(z) {
                    resolve_from(
                        bs.skip(1),
                        zs.remove(j),
                        sat_add_u32(sat_add_u32(score, HIT_SCORE as int), KILL_SCORE as int),
                        events.push(hit_event(z)).push(kill_event(z)),
                    )
                } else {
                    resolve_from(
                        bs.skip(1),
                        zs.update(j, ZombieModel { health: z.health - HIT_DAMAGE as int, ..z }),
                        sat_add_u32(score, HIT_SCORE as int),
                        events.push(hit_event(z)),
                    )
                }
            },
        }
    }
}

/// Combat resolution of fresh input: no events yet.
pub open spec fn resolve(bs: Seq<BulletModel>, zs: Seq<ZombieModel>, score: int) -> CombatModel {
    resolve_from(bs, zs, score, Seq::empty())
}

/// Law of health bounds under combat: resolution keeps every surviving
/// zombie's health positive and no higher than the health it spawned with
/// (health may pass through zero or below only transiently, on the way to
/// removal), and the score never decreases and stays a machine word.
pub proof fn lemma_resolve_bounds(
    bs: Seq<BulletModel>,
    zs: Seq<ZombieModel>,
    score: int,
    events: Seq<EventModel>,
)
    requires
        all_zombies_wf(zs),
        all_events_wf(events),
        0 <= score <= u32::MAX as int,
    ensures
        all_zombies_wf(resolve_from(bs, zs, score, events).zombies),
        all_events_wf(resolve_from(bs, zs, score, events).events),
        score <= resolve_from(bs, zs, score, events).score <= u32::MAX as int,
    decreases bs.len(),
{
    if bs.len() > 0 {
        let b = bs[0];
        lemma_first_hit_bounds(b, zs, 0);
        match first_hit(b, zs) {
            Option::None => {
                lemma_resolve_bounds(bs.skip(1), zs, score, events);
            },
            Option::Some(j) => {
                let z = zs[j];
                assert(z.wf());
                if hit_kills(z) {
                    let zs2 = zs.remove(j);
                    assert forall|k: int| 0 <= k < zs2.len() implies #[trigger] zs2[k].wf() by {
                        if k < j {
                            assert(zs2[k] == zs[k]);
                        } else {
                            assert(zs2[k] == zs[k + 1]);
                        }
                    }
                    let ev2 = events.push(hit_event(z)).push(kill_event(z));
                    assert forall|k: int| 0 <= k < ev2.len() implies #[trigger] ev2[k].wf() by {
                        if k < events.len() {
                            assert(ev2[k] == events[k]);
                        }
                    }
                    lemma_resolve_bounds(
                        bs.skip(1),
                        zs2,
                        sat_add_u32(sat_add_u32(score, HIT_SCORE as int), KILL_SCORE as int),
                        ev2,
                    );
                } else {
                    let zs2 = zs.update(j, ZombieModel { health: z.health - HIT_DAMAGE as int, ..z });
                    assert forall|k: int| 0 <= k < zs2.len() implies #[trigger] zs2[k].wf() by {
                        if k != j {
                            assert(zs2[k] == zs[k]);
                        }
                    }
                    let ev2 = events.push(hit_event(z));
                    assert forall|k: int| 0 <= k < ev2.len() implies #[trigger] ev2[k].wf() by {
                        if k < events.len() {
                            assert(ev2[k] == events[k]);
                        }
                    }
                    lemma_resolve_bounds(bs.skip(1), zs2, sat_add_u32(score, HIT_SCORE as int), ev2);
                }
            },
        }
    }
}

// ------------------------------------------------------------ executable side

/// Squared distance between a bullet and a zombie, in squared milli-pixels.
fn dist_sq_exec(ax: i64, ay: i64, bx: i64, by: i64) -> (d: i64)
    requires
        -500_000 <= ax <= 500_000,
        -500_000 <= bx <= 500_000,
        -1_100_000_000 <= ay <= 1_100_000_000,
        -1_100_000_000 <= by <= 1_100_000_000,
    ensures
        d as int == dist_sq(ax as int, ay as int, bx as int, by as int),
{
    let dx: i64 = ax - bx;
    let dy: i64 = ay - by;
    assert(0 <= dx as int * dx as int <= 1_000_000_000_000) by (nonlinear_arith)
        requires
            -1_000_000 <= dx as int <= 1_000_000,
    ;
    assert(0 <= dy as int * dy as int <= 4_840_000_000_000_000_000) by (nonlinear_arith)
        requires
            -2_200_000_000 <= dy as int <= 2_200_000_000,
    ;
    dx * dx + dy * dy
}

/// The first zombie of the column, in order, that bullet `b` hits, if any.
fn find_first_hit(b: &Bullet, zombies: &Vec<Zombie>) -> (r: Option<usize>)
    requires
        b@.wf(),
        all_zombies_wf(zombies_view(zombies@)),
    ensures
        match r {
            Option::Some(j) => j < zombies@.len() && first_hit(b@, zombies_view(zombies@))
                == Option::<int>::Some(j as int),
            Option::None => first_hit(b@, zombies_view(zombies@)) == Option::<int>::None,
        },
{
    let ghost zs = zombies_view(zombies@);
    let mut j: usize = 0;
    while j < zombies.len()
        invariant
            j <= zombies@.len(),
            zs == zombies_view(zombies@),
            b@.wf(),
            all_zombies_wf(zs),
            first_hit(b@, zs) == first_hit_from(b@, zs, j as int),
        decreases zombies@.len() - j,
    {
        let z = zombies[j];
        assert(z@ == zs[j as int]);
        assert(zs[j as int].wf());
        let d = dist_sq_exec(b.x, b.y, z.x, z.y);
        if d < HIT_RADIUS_SQ {
            assert(in_hit_range(b@, zs[j as int]));
            assert(first_hit_from(b@, zs, j as int) == Option::<int>::Some(j as int));
            return Option::Some(j);
        }
        assert(!in_hit_range(b@, zs[j as int]));
        j = j + 1;
    }
    assert(first_hit_from(b@, zs, j as int) == Option::<int>::None);
    Option::None
}

/// Saturating score award.
fn add_score(score: &mut u32, amount: u32)
    ensures
        *final(score) as int == sat_add_u32(*old(score) as int, amount as int),
{
    if *score <= u32::MAX - amount {
        *score = *score + amount;
    } else {
        *score = u32::MAX;
    }
}

/// Resolves this frame's combat: spends bullets on the first zombie each is
/// in range of, applies damage, removes killed zombies, awards score, and
/// returns the score-indicator events in the order the hits landed.
pub fn resolve_combat(
    bullets: &mut Vec<Bullet>,
    zombies: &mut Vec<Zombie>,
    score: &mut u32,
) -> (events: Vec<ScoreEvent>)
    requires
        all_bullets_wf(bullets_view(old(bullets)@)),
        all_zombies_wf(zombies_view(old(zombies)@)),
    ensures
        ({
            let r = resolve(
                bullets_view(old(bullets)@),
                zombies_view(old(zombies)@),
                *old(score) as int,
            );
            &&& bullets_view(final(bullets)@) == r.bullets
            &&& zombies_view(final(zombies)@) == r.zombies
            &&& *final(score) as int == r.score
            &&& events_view(events@) == r.events
        }),
        all_bullets_wf(bullets_view(final(bullets)@)),
        all_zombies_wf(zombies_view(final(zombies)@)),
        all_events_wf(events_view(events@)),
        *final(score) >= *old(score),
{
    let ghost borig = bullets_view(bullets@);
    let ghost zorig = zombies_view(zombies@);
    let ghost score0 = *score as int;
    let ghost total = resolve(borig, zorig, score0);
    let mut kept: Vec<Bullet> = Vec::new();
    let mut events: Vec<ScoreEvent> = Vec::new();
    let mut i: usize = 0;
    assert(borig.skip(0) =~= borig);
    assert(bullets_view(kept@) =~= Seq::<BulletModel>::empty());
    assert(events_view(events@) =~= Seq::<EventModel>::empty());
    assert(bullets_view(kept@) + total.bullets =~= total.bullets);
    while i < bullets.len()
        invariant
            i <= bullets@.len(),
            bullets_view(bullets@) == borig,
            all_bullets_wf(borig),
            all_bullets_wf(bullets_view(kept@)),
            all_zombies_wf(zombies_view(zombies@)),
            all_events_wf(events_view(events@)),
            *score >= *old(score),
            total == resolve(borig, zorig, score0),
            ({
                let r = resolve_from(
                    borig.skip(i as int),
                    zombies_view(zombies@),
                    *score as int,
                    events_view(events@),
                );
                &&& r.zombies == total.zombies
                &&& r.score == total.score
                &&& r.events == total.events
                &&& bullets_view(kept@) + r.bullets == total.bullets
            }),
        decreases bullets@.len() - i,
    {
        let ghost zs_before = zombies_view(zombies@);
        let ghost ev_before = events_view(events@);
        let ghost score_before = *score as int;
        let b = bullets[i];
        assert(bullets_view(bullets@)[i as int] == bullets@[i as int]@);
        assert(b@ == borig[i as int]);
        assert(borig[i as int].wf());
        assert(borig.skip(i as int)[0] == borig[i as int]);
        assert(borig.skip(i as int).skip(1) =~= borig.skip(i as int + 1));
        match find_first_hit(&b, zombies) {
            Option::None => {
                let ghost kept_before = bullets_view(kept@);
                kept.push(b);
                assert(bullets_view(kept@) =~= kept_before.push(b@));
                assert(bullets_view(kept@) + resolve_from(
                    borig.skip(i as int + 1),
                    zs_before,
                    score_before,
                    ev_before,
                ).bullets =~= kept_before + (seq![b@] + resolve_from(
                    borig.skip(i as int + 1),
                    zs_before,
                    score_before,
                    ev_before,
                ).bullets));
            },
            Option::Some(j) => {
                let z = zombies[j];
                assert(zombies_view(zombies@)[j as int] == zombies@[j as int]@);
                assert(z@ == zs_before[j as int]);
                assert(zs_before[j as int].wf());
                let damaged: i64 = z.health - HIT_DAMAGE;
                add_score(score, HIT_SCORE);
                events.push(ScoreEvent { x: z.x, y: z.y, amount: HIT_SCORE, kind: ScoreKind::Hit });
                assert(events_view(events@) =~= ev_before.push(hit_event(z@)));
                if damaged <= 0 {
                    assert(hit_kills(z@));
                    zombies.remove(j);
                    assert(zombies_view(zombies@) =~= zs_before.remove(j as int));
                    add_score(score, KILL_SCORE);
                    let ghost ev_mid2 = events_view(events@);
                    events.push(
                        ScoreEvent {
                            x: z.x,
                            y: z.y,
                            amount: HIT_SCORE + KILL_SCORE,
                            kind: ScoreKind::Kill,
                        },
                    );
                    assert(events_view(events@) =~= ev_mid2.push(kill_event(z@)));
                    assert forall|k: int|
                        0 <= k < zombies_view(zombies@).len() implies #[trigger] zombies_view(
                        zombies@,
                    )[k].wf() by {
                        if k < j as int {
                            assert(zombies_view(zombies@)[k] == zs_before[k]);
                        } else {
                            assert(zombies_view(zombies@)[k] == zs_before[k + 1]);
                        }
                        assert(all_zombies_wf(zs_before));
                    }
                } else {
                    let nz = Zombie { health: damaged, ..z };
                    zombies.set(j, nz);
                    assert(zombies_view(zombies@) =~= zs_before.update(
                        j as int,
                        ZombieModel { health: z@.health - HIT_DAMAGE as int, ..z@ },
                    ));
                    assert forall|k: int|
                        0 <= k < zombies_view(zombies@).len() implies #[trigger] zombies_view(
                        zombies@,
                    )[k].wf() by {
                        if k != j as int {
                            assert(zombies_view(zombies@)[k] == zs_before[k]);
                        }
                        assert(all_zombies_wf(zs_before));
                    }
                }
                assert forall|k: int|
                    0 <= k < events_view(events@).len() implies #[trigger] events_view(
                    events@,
                )[k].wf() by {
                    if k < ev_before.len() {
                        assert(events_view(events@)[k] == ev_before[k]);
                    }
                }
            },
        }
        i = i + 1;
    }
    assert(borig.skip(bullets@.len() as int) =~= Seq::<BulletModel>::empty());
    assert(bullets_view(kept@) + Seq::<BulletModel>::empty() =~= bullets_view(kept@));
    *bullets = kept;
    events
}

} // verus!
