//! The whole game state and its per-frame pipeline.
//!
//! Each frame, the stages run in a fixed order that the correctness of the
//! round depends on: the difficulty ramp runs before the spawner (a spawn
//! must see this frame's post-ramp stats), all movement runs before combat,
//! and combat runs before the boundary check (a zombie destroyed by combat
//! must not lose the round from its last position).
//!
//! The round is a one-way latch: a zombie crossing the lower boundary sets
//! game over, and only an explicit restart clears it. The survival clock
//! accrues only while the round is live. Restart resets the difficulty, the
//! spawner, the clock and the live entities, and keeps the score, the
//! purchases and the player's position.

use vstd::prelude::*;
use crate::combat::{all_events_wf, events_view, resolve, resolve_combat, EventModel};
use crate::difficulty::{StatsModel, ZombieStats};
use crate::entities::{
    all_bullets_wf, all_zombies_wf, any_zombie_past_bottom, bullets_view, check_zombie_bottom,
    move_bullets, move_zombies, player_step, spawn_zombie, bullets_after_flight, player_after_move,
    zombies_after_fall, zombies_view, Bullet, BulletModel, Zombie, ZombieModel,
};
use crate::floating::{
    age_floating_scores, all_floats_wf, floats_after_age, floats_view, indicator_for,
    place_indicator, FloatModel, FloatingScore,
};
use crate::progression::{
    press_ability_model, press_weapon_model, AbilityPress, ProgressionModel, ProgressionStore,
    WeaponPress,
};
use crate::rng::random_in_range;
use crate::timer::{TickTimer, TimerModel};
use crate::weapon_fire::{fire_decision, fire_decision_model, fired_bullets, spawn_bullets};
use crate::{
    INITIAL_SPAWN_INTERVAL_MS, MINIGUN_FIRE_INTERVAL_MS, PLAYER_X_LIMIT, SPAWN_X_MAX, SPAWN_X_MIN,
};

verus! {

/// The round is either live or lost; only a restart brings it back.
#[derive(Clone, Copy, Debug, PartialEq, Eq, Structural)]
pub enum RoundState {
    Playing,
    GameOver,
}

/// The logical fire and movement inputs of one frame, as polled by the
/// surrounding engine.
#[derive(Clone, Copy, Debug, PartialEq, Eq, Structural)]
pub struct InputState {
    /// The move-left key is held.
    pub left: bool,
    /// The move-right key is held.
    pub right: bool,
    /// The fire key is held.
    pub fire_held: bool,
    /// The fire key went down this frame.
    pub fire_pressed: bool,
}

/// The side-effect requests one frame hands back to the engine.
#[derive(Clone, Copy, Debug, PartialEq, Eq, Structural)]
pub struct TickOutput {
    /// A shot went off: play the shot sound.
    pub fired: bool,
    /// A zombie spawned this frame.
    pub spawned: bool,
    /// The round was just lost and no overlay exists yet: show the
    /// game-over overlay (requested at most once per loss).
    pub show_overlay: bool,
}

/// Saturating addition within a `u64`, mirroring the survival clock.
pub open spec fn sat_add_u64(a: int, b: int) -> int {
    if a + b > u64::MAX as int {
        u64::MAX as int
    } else {
        a + b
    }
}

/// Ghost image of the whole [`GameState`].
#[verifier::ext_equal]
pub struct GameModel {
    pub stats: StatsModel,
    pub spawn_timer: TimerModel,
    pub fire_timer: TimerModel,
    pub round: RoundState,
    pub survival: int,
    pub player_x: int,
    pub progression: ProgressionModel,
    pub zombies: Seq<ZombieModel>,
    pub bullets: Seq<BulletModel>,
    pub floats: Seq<FloatModel>,
    pub overlay: bool,
}

impl GameModel {
    /// Well-formedness of the whole game: the difficulty stats are well
    /// formed, the spawn timer runs on the current spawn interval, the fire
    /// timer on the minigun's interval, the player stands in the play field,
    /// the store is consistent, and every live entity is well formed.
    pub open spec fn wf(self) -> bool {
        &&& self.stats.wf()
        &&& self.spawn_timer.wf()
        &&& self.spawn_timer.duration == self.stats.spawn_interval
        &&& self.fire_timer.wf()
        &&& self.fire_timer.duration == MINIGUN_FIRE_INTERVAL_MS as int
        &&& -PLAYER_X_LIMIT as int <= self.player_x <= PLAYER_X_LIMIT as int
        &&& 0 <= self.survival <= u64::MAX as int
        &&& self.progression.wf()
        &&& all_zombies_wf(self.zombies)
        &&& all_bullets_wf(self.bullets)
        &&& all_floats_wf(self.floats)
    }

    /// The state a fresh game starts in.
    pub open spec fn initial() -> GameModel {
        GameModel {
            stats: StatsModel::initial(),
            spawn_timer: TimerModel::fresh(INITIAL_SPAWN_INTERVAL_MS as int),
            fire_timer: TimerModel::fresh(MINIGUN_FIRE_INTERVAL_MS as int),
            round: RoundState::Playing,
            survival: 0,
            player_x: 0,
            progression: ProgressionModel::initial(),
            zombies: Seq::empty(),
            bullets: Seq::empty(),
            floats: Seq::empty(),
            overlay: false,
        }
    }
}

/// What restart does: back to the initial difficulty, a fresh spawn timer on
/// the initial interval, a live round with the clock at zero, no zombies, no
/// bullets, no overlay — keeping the score, the purchases, the player's
/// position, the fire timer and any indicators still fading out.
pub open spec fn restart_model(g: GameModel) -> GameModel {
    GameModel {
        stats: StatsModel::initial(),
        spawn_timer: TimerModel::fresh(INITIAL_SPAWN_INTERVAL_MS as int),
        round: RoundState::Playing,
        survival: 0,
        zombies: Seq::empty(),
        bullets: Seq::empty(),
        overlay: false,
        ..g
    }
}

/// Law of restart: afterwards the round is live, the survival clock reads
/// zero, the difficulty stands at its initial constants, the spawn timer is
/// fresh on the initial interval, and no zombie, bullet or overlay remains.
pub proof fn lemma_restart_resets(g: GameModel)
    ensures
        restart_model(g).round == RoundState::Playing,
        restart_model(g).survival == 0,
        restart_model(g).stats == StatsModel::initial(),
        restart_model(g).spawn_timer == TimerModel::fresh(INITIAL_SPAWN_INTERVAL_MS as int),
        restart_model(g).zombies.len() == 0,
        restart_model(g).bullets.len() == 0,
        !restart_model(g).overlay,
        restart_model(g).progression == g.progression,
        restart_model(g).player_x == g.player_x,
{
}

/// Law of restart idempotence: restarting twice in a row leaves the same
/// state as restarting once.
pub proof fn lemma_restart_idempotent(g: GameModel)
    ensures
        restart_model(restart_model(g)) == restart_model(g),
{
    assert(restart_model(restart_model(g)) =~= restart_model(g));
}

/// Everything one frame produces: the state, the combat events it reported
/// (before their random placement), and the engine requests.
pub struct TickModelResult {
    pub state: GameModel,
    pub events: Seq<EventModel>,
    pub fired: bool,
    pub spawned: bool,
    pub show_overlay: bool,
}

/// One frame of the pipeline, with `sx` standing for the random spawn
/// column used if a zombie spawns this frame. The resulting state's
/// indicators are only the aged ones; the indicators of this frame's events
/// are appended by the caller with their random placement.
pub open spec fn tick_model(g: GameModel, dt: int, input: InputState, sx: int) -> TickModelResult {
    let ramped = g.stats.ramp.fires(dt);
    let stats1 = g.stats.after_tick(dt);
    let spawn_t1 = if ramped {
        TimerModel::fresh(stats1.spawn_interval)
    } else {
        g.spawn_timer
    };
    let spawned = spawn_t1.fires(dt);
    let spawn_t2 = spawn_t1.after_tick(dt);
    let zombies1 = if spawned {
        g.zombies.push(ZombieModel::spawned(sx, stats1.health))
    } else {
        g.zombies
    };
    let px = player_after_move(g.player_x, input.left, input.right, dt);
    let active = g.progression.weapons.active;
    let fired_pair = fire_decision_model(
        g.fire_timer,
        active,
        input.fire_held,
        input.fire_pressed,
        dt,
    );
    let fire_t1 = fired_pair.0;
    let shoot = fired_pair.1;
    let bullets1 = if shoot {
        g.bullets + fired_bullets(px, active)
    } else {
        g.bullets
    };
    let bullets2 = bullets_after_flight(bullets1, dt);
    let zombies2 = zombies_after_fall(zombies1, stats1.speed, dt);
    let c = resolve(bullets2, zombies2, g.progression.score);
    let floats1 = floats_after_age(g.floats, dt);
    let survival1 = if g.round == RoundState::Playing {
        sat_add_u64(g.survival, dt)
    } else {
        g.survival
    };
    let lost = any_zombie_past_bottom(c.zombies);
    let round1 = if g.round == RoundState::GameOver || lost {
        RoundState::GameOver
    } else {
        RoundState::Playing
    };
    let show = round1 == RoundState::GameOver && !g.overlay;
    TickModelResult {
        state: GameModel {
            stats: stats1,
            spawn_timer: spawn_t2,
            fire_timer: fire_t1,
            round: round1,
            survival: survival1,
            player_x: px,
            progression: ProgressionModel { score: c.score, ..g.progression },
            zombies: c.zombies,
            bullets: c.bullets,
            floats: floats1,
            overlay: g.overlay || round1 == RoundState::GameOver,
        },
        events: c.events,
        fired: shoot,
        spawned: spawned,
        show_overlay: show,
    }
}

/// Law of the one-way latch: once the round is lost, no frame of the
/// pipeline brings it back, the survival clock stays frozen, and the
/// overlay, once up, is never requested again.
pub proof fn lemma_game_over_latches(g: GameModel, dt: int, input: InputState, sx: int)
    requires
        g.round == RoundState::GameOver,
    ensures
        tick_model(g, dt, input, sx).state.round == RoundState::GameOver,
        tick_model(g, dt, input, sx).state.survival == g.survival,
        g.overlay ==> !tick_model(g, dt, input, sx).show_overlay,
        g.overlay ==> tick_model(g, dt, input, sx).state.overlay,
{
}

/// Law of the overlay entry action: the pipeline requests the game-over
/// overlay exactly on the frame the round ends with none up yet, so a
/// standing overlay is never duplicated.
pub proof fn lemma_overlay_requested_once(g: GameModel, dt: int, input: InputState, sx: int)
    ensures
        tick_model(g, dt, input, sx).show_overlay <==> (tick_model(g, dt, input, sx).state.round
            == RoundState::GameOver && !g.overlay),
        tick_model(g, dt, input, sx).state.overlay == (g.overlay || tick_model(
            g,
            dt,
            input,
            sx,
        ).state.round == RoundState::GameOver),
{
}

/// Does frame outcome `(g2, out)` follow from `g` by one frame of the
/// pipeline with spawn column `sx`? Exact everywhere except the indicators
/// of this frame's events, which sit after the aged ones and carry their
/// event's amount and kind at the event's position within the random jitter
/// bounds.
pub open spec fn tick_rel(
    g: GameModel,
    g2: GameModel,
    out: TickOutput,
    dt: int,
    input: InputState,
    sx: int,
) -> bool {
    let r = tick_model(g, dt, input, sx);
    &&& g2.stats == r.state.stats
    &&& g2.spawn_timer == r.state.spawn_timer
    &&& g2.fire_timer == r.state.fire_timer
    &&& g2.round == r.state.round
    &&& g2.survival == r.state.survival
    &&& g2.player_x == r.state.player_x
    &&& g2.progression == r.state.progression
    &&& g2.zombies == r.state.zombies
    &&& g2.bullets == r.state.bullets
    &&& g2.overlay == r.state.overlay
    &&& g2.floats.len() == r.state.floats.len() + r.events.len()
    &&& g2.floats.subrange(0, r.state.floats.len() as int) == r.state.floats
    &&& (forall|k: int| 0 <= k < r.events.len() ==> indicator_for(
        g2.floats[r.state.floats.len() + k],
        #[trigger] r.events[k],
    ))
    &&& out.fired == r.fired
    &&& out.spawned == r.spawned
    &&& out.show_overlay == r.show_overlay
}

/// The whole game: difficulty, timers, the round latch, the survival clock,
/// the player, the store, and the live entities.
#[derive(Clone, Debug, PartialEq)]
pub struct GameState {
    pub stats: ZombieStats,
    pub spawn_timer: TickTimer,
    pub fire_timer: TickTimer,
    pub round: RoundState,
    pub survival_ms: u64,
    pub player_x: i64,
    pub progression: ProgressionStore,
    pub zombies: Vec<Zombie>,
    pub bullets: Vec<Bullet>,
    pub floats: Vec<FloatingScore>,
    pub overlay_shown: bool,
}

impl View for GameState {
    type V = GameModel;

    open spec fn view(&self) -> GameModel {
        GameModel {
            stats: self.stats@,
            spawn_timer: self.spawn_timer@,
            fire_timer: self.fire_timer@,
            round: self.round,
            survival: self.survival_ms as int,
            player_x: self.player_x as int,
            progression: self.progression@,
            zombies: zombies_view(self.zombies@),
            bullets: bullets_view(self.bullets@),
            floats: floats_view(self.floats@),
            overlay: self.overlay_shown,
        }
    }
}

impl GameState {
    /// A fresh game, before the first frame.
    pub fn new() -> (g: GameState)
        ensures
            g@ == GameModel::initial(),
            g@.wf(),
    {
        let g = GameState {
            stats: ZombieStats::new(),
            spawn_timer: TickTimer::new(INITIAL_SPAWN_INTERVAL_MS),
            fire_timer: TickTimer::new(MINIGUN_FIRE_INTERVAL_MS),
            round: RoundState::Playing,
            survival_ms: 0,
            player_x: 0,
            progression: ProgressionStore::new(),
            zombies: Vec::new(),
            bullets: Vec::new(),
            floats: Vec::new(),
            overlay_shown: false,
        };
        assert(zombies_view(g.zombies@) =~= Seq::<ZombieModel>::empty());
        assert(bullets_view(g.bullets@) =~= Seq::<BulletModel>::empty());
        assert(floats_view(g.floats@) =~= Seq::<FloatModel>::empty());
        assert(g@ =~= GameModel::initial());
        g
    }

    /// Runs one frame of `dt` milliseconds with this frame's inputs. The
    /// stages run in the pipeline order the module documents; the spawn
    /// column and the indicator placements are the only random choices.
    #[verifier::rlimit(60)]
    pub fn tick(&mut self, dt: u32, input: InputState) -> (out: TickOutput)
        requires
            old(self)@.wf(),
        ensures
            final(self)@.wf(),
            exists|sx: int|
                SPAWN_X_MIN as int <= sx < SPAWN_X_MAX as int && tick_rel(
                    old(self)@,
                    final(self)@,
                    out,
                    dt as int,
                    input,
                    sx,
                ),
    {
        let ghost g0 = self@;
        let ghost mut gsx: int = SPAWN_X_MIN as int;

        // 1. Difficulty ramp; a ramp event pushes the new interval to the
        //    spawner as a whole fresh period.
        let ramped = self.stats.tick(dt);
        if ramped {
            self.spawn_timer.set_duration(self.stats.spawn_interval_ms);
        }

        // 2. Spawner: on expiry, one zombie at a random column with the
        //    post-ramp stats.
        let spawned = self.spawn_timer.tick(dt);
        if spawned {
            let sx = random_in_range(SPAWN_X_MIN, SPAWN_X_MAX);
            spawn_zombie(&mut self.zombies, sx, self.stats.health);
            proof {
                gsx = sx as int;
            }
        }

        // 3. Player movement.
        self.player_x = player_step(self.player_x, input.left, input.right, dt);

        // 4. Weapon fire.
        let active = self.progression.weapons.active;
        let shoot = fire_decision(&mut self.fire_timer, active, input.fire_held,
            input.fire_pressed, dt);
        if shoot {
            spawn_bullets(&mut self.bullets, self.player_x, active);
        }

        // 5. Bullet flight and culling.
        move_bullets(&mut self.bullets, dt);

        // 6. Zombie fall.
        move_zombies(&mut self.zombies, self.stats.speed, dt);

        // 7. Combat.
        let events = resolve_combat(&mut self.bullets, &mut self.zombies,
            &mut self.progression.score);

        // 8. Indicators: age the old ones, place this frame's.
        age_floating_scores(&mut self.floats, dt);
        let ghost aged = floats_view(self.floats@);
        let ghost mid = self@;
        let mut k: usize = 0;
        while k < events.len()
            invariant
                self@.stats == mid.stats,
                self@.spawn_timer == mid.spawn_timer,
                self@.fire_timer == mid.fire_timer,
                self@.round == mid.round,
                self@.survival == mid.survival,
                self@.player_x == mid.player_x,
                self@.progression == mid.progression,
                self@.zombies == mid.zombies,
                self@.bullets == mid.bullets,
                self@.overlay == mid.overlay,
                k <= events@.len(),
                all_events_wf(events_view(events@)),
                floats_view(self.floats@).len() == aged.len() + k as int,
                floats_view(self.floats@).subrange(0, aged.len() as int) == aged,
                forall|j: int| 0 <= j < k as int ==> indicator_for(
                    floats_view(self.floats@)[aged.len() + j],
                    #[trigger] events_view(events@)[j],
                ),
                all_floats_wf(floats_view(self.floats@)),
            decreases events@.len() - k,
        {
            assert(events_view(events@)[k as int] == events@[k as int]@);
            assert(events_view(events@)[k as int].wf());
            let f = place_indicator(&events[k]);
            let ghost before = floats_view(self.floats@);
            self.floats.push(f);
            assert(floats_view(self.floats@) =~= before.push(f@));
            assert(floats_view(self.floats@).subrange(0, aged.len() as int) =~= aged);
            k = k + 1;
        }

        // 9. Survival clock, frozen once the round is over.
        if self.round == RoundState::Playing {
            self.survival_ms = if self.survival_ms <= u64::MAX - dt as u64 {
                self.survival_ms + dt as u64
            } else {
                u64::MAX
            };
        }

        // 10. Boundary check: a one-way latch into game over.
        let lost = check_zombie_bottom(&self.zombies);
        if lost {
            self.round = RoundState::GameOver;
        }

        // 11. Overlay request, at most once per loss.
        let show = self.round == RoundState::GameOver && !self.overlay_shown;
        if show {
            self.overlay_shown = true;
        }

        let out = TickOutput { fired: shoot, spawned, show_overlay: show };
        proof {
            let r = tick_model(g0, dt as int, input, gsx);
            assert(self@.stats == r.state.stats);
            assert(self@.spawn_timer == r.state.spawn_timer);
            assert(self@.fire_timer == r.state.fire_timer);
            assert(self@.zombies == r.state.zombies);
            assert(self@.bullets == r.state.bullets);
            assert(self@.progression =~= r.state.progression);
            assert(self@.round == r.state.round);
            assert(self@.survival == r.state.survival);
            assert(self@.overlay == r.state.overlay);
            assert(tick_rel(g0, self@, out, dt as int, input, gsx));
            assert(exists|sx: int|
                SPAWN_X_MIN as int <= sx < SPAWN_X_MAX as int && tick_rel(
                    g0,
                    self@,
                    out,
                    dt as int,
                    input,
                    sx,
                ));
        }
        out
    }

    /// Restarts the round: clears the game-over latch, zeroes the survival
    /// clock, resets the difficulty and the spawner to their initial
    /// constants, and destroys every zombie, bullet and the overlay. The
    /// score, the purchases and the player's position survive. Safe in any
    /// state, lost or live.
    pub fn restart(&mut self)
        requires
            old(self)@.wf(),
        ensures
            final(self)@ == restart_model(old(self)@),
            final(self)@.wf(),
    {
        self.round = RoundState::Playing;
        self.survival_ms = 0;
        self.stats = ZombieStats::new();
        self.spawn_timer = TickTimer::new(INITIAL_SPAWN_INTERVAL_MS);
        self.zombies = Vec::new();
        self.bullets = Vec::new();
        self.overlay_shown = false;
        assert(zombies_view(self.zombies@) =~= Seq::<ZombieModel>::empty());
        assert(bullets_view(self.bullets@) =~= Seq::<BulletModel>::empty());
        assert(self@ =~= restart_model(old(self)@));
    }

    /// Presses weapon key `i`: the store acts as
    /// [`press_weapon_model`] says, and a change of the active weapon resets
    /// the minigun's fire timer so that switching mid-hold cannot produce a
    /// leftover shot.
    pub fn press_weapon(&mut self, i: usize) -> (r: WeaponPress)
        requires
            old(self)@.wf(),
            i < old(self)@.progression.weapons.purchased.len(),
        ensures
            final(self)@.wf(),
            r == press_weapon_model(old(self)@.progression, i as int).1,
            (final(self)@ == GameModel {
                progression: press_weapon_model(old(self)@.progression, i as int).0,
                fire_timer: if press_weapon_model(old(self)@.progression, i as int).0.weapons.active
                    != old(self)@.progression.weapons.active {
                    TimerModel::fresh(MINIGUN_FIRE_INTERVAL_MS as int)
                } else {
                    old(self)@.fire_timer
                },
                ..old(self)@
            }),
    {
        let before_active = self.progression.weapons.active;
        let r = self.progression.press_weapon(i);
        if self.progression.weapons.active != before_active {
            self.fire_timer.set_duration(MINIGUN_FIRE_INTERVAL_MS);
        }
        assert(self@ =~= GameModel {
            progression: press_weapon_model(old(self)@.progression, i as int).0,
            fire_timer: if press_weapon_model(old(self)@.progression, i as int).0.weapons.active
                != old(self)@.progression.weapons.active {
                TimerModel::fresh(MINIGUN_FIRE_INTERVAL_MS as int)
            } else {
                old(self)@.fire_timer
            },
            ..old(self)@
        });
        r
    }

    /// Presses ability key `i`: the store acts as [`press_ability_model`]
    /// says; nothing else of the game changes.
    pub fn press_ability(&mut self, i: usize) -> (r: AbilityPress)
        requires
            old(self)@.wf(),
            i < old(self)@.progression.abilities.purchased.len(),
        ensures
            final(self)@.wf(),
            r == press_ability_model(old(self)@.progression, i as int).1,
            (final(self)@ == GameModel {
                progression: press_ability_model(old(self)@.progression, i as int).0,
                ..old(self)@
            }),
    {
        let r = self.progression.press_ability(i);
        assert(self@ =~= GameModel {
            progression: press_ability_model(old(self)@.progression, i as int).0,
            ..old(self)@
        });
        r
    }
}

} // verus!
