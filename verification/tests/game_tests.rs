//! The whole-game pipeline: spawning, firing, the round latch, restart, and
//! the score indicators.

use zombie_wave::combat::ScoreKind;
use zombie_wave::entities::Zombie;
use zombie_wave::floating::FloatingScore;
use zombie_wave::game::{GameState, InputState, RoundState};
use zombie_wave::progression::WeaponPress;
use zombie_wave::{
    BOTTOM_Y, INDICATOR_LIFETIME_MS, INITIAL_SPAWN_INTERVAL_MS, INITIAL_ZOMBIE_HEALTH, PLAYER_Y,
    SPAWN_X_MAX, SPAWN_X_MIN, SPAWN_Y, WEAPON_MINIGUN, WEAPON_PISTOL, WEAPON_SHOTGUN,
};

fn idle() -> InputState {
    InputState { left: false, right: false, fire_held: false, fire_pressed: false }
}

fn firing_edge() -> InputState {
    InputState { left: false, right: false, fire_held: true, fire_pressed: true }
}

fn holding_fire() -> InputState {
    InputState { left: false, right: false, fire_held: true, fire_pressed: false }
}

#[test]
fn spawner_fires_on_schedule_and_x_stays_in_band() {
    let mut g = GameState::new();
    let out = g.tick(INITIAL_SPAWN_INTERVAL_MS - 1, idle());
    assert!(!out.spawned);
    assert!(g.zombies.is_empty());
    let out = g.tick(1, idle());
    assert!(out.spawned);
    assert_eq!(g.zombies.len(), 1);
    let z = g.zombies[0];
    assert!(SPAWN_X_MIN <= z.x && z.x < SPAWN_X_MAX);
    assert_eq!(z.health, INITIAL_ZOMBIE_HEALTH as i64);
    // The zombie also fell for its own first frame (1 ms at 50 px/s).
    assert_eq!(z.y, SPAWN_Y - 50);
}

#[test]
fn spawn_after_ramp_carries_ramped_health() {
    let mut g = GameState::new();
    // 8 s in one frame: the ramp fires first and restarts the spawn timer
    // on the new 2.3 s interval; the same frame's leftover time then fires
    // the spawner, and the spawn carries the post-ramp health of 70.
    let out = g.tick(8_000, idle());
    assert!(out.spawned);
    assert_eq!(g.stats.health, 70);
    assert_eq!(g.spawn_timer.duration_ms(), 2_300);
    assert_eq!(g.zombies.len(), 1);
    assert_eq!(g.zombies[0].max_health, 70);
    assert_eq!(g.zombies[0].health, 70);
}

#[test]
fn pistol_fires_on_edge_only() {
    let mut g = GameState::new();
    let out = g.tick(16, firing_edge());
    assert!(out.fired);
    assert_eq!(g.bullets.len(), 1);
    // Held but no fresh press: debounced.
    let out = g.tick(16, holding_fire());
    assert!(!out.fired);
    assert_eq!(g.bullets.len(), 1);
    // The bullet left the muzzle 30 px above the player and flew 16 ms.
    assert_eq!(g.bullets[0].x, 0);
    assert_eq!(g.bullets[0].y, PLAYER_Y + 30_000 + 2 * 12_800);
}

#[test]
fn shotgun_fires_a_fan_of_five() {
    let mut g = GameState::new();
    g.progression.score = 100;
    assert_eq!(g.press_weapon(WEAPON_SHOTGUN), WeaponPress::Purchased);
    let out = g.tick(16, firing_edge());
    assert!(out.fired);
    assert_eq!(g.bullets.len(), 5);
    let dirs: Vec<(i64, i64)> = g.bullets.iter().map(|b| (b.dx, b.dy)).collect();
    assert_eq!(dirs, vec![(-195, 981), (-99, 995), (0, 1000), (99, 995), (195, 981)]);
}

#[test]
fn minigun_fires_on_its_timer_only_while_held() {
    let mut g = GameState::new();
    g.progression.score = 200;
    assert_eq!(g.press_weapon(WEAPON_MINIGUN), WeaponPress::Purchased);
    // A fresh press alone does not fire the minigun.
    let out = g.tick(16, firing_edge());
    assert!(!out.fired);
    // Holding: fires once each 50 ms of held time.
    let out = g.tick(34, holding_fire());
    assert!(out.fired);
    assert_eq!(g.bullets.len(), 1);
    // Released: the timer freezes; held again later, it resumes.
    let out = g.tick(1_000, idle());
    assert!(!out.fired);
    let out = g.tick(49, holding_fire());
    assert!(!out.fired);
    let out = g.tick(1, holding_fire());
    assert!(out.fired);
}

#[test]
fn switching_weapons_resets_the_minigun_timer() {
    let mut g = GameState::new();
    g.progression.score = 200;
    assert_eq!(g.press_weapon(WEAPON_MINIGUN), WeaponPress::Purchased);
    let _ = g.tick(49, holding_fire());
    // Switch away and back: the 49 ms of held time must not survive.
    assert_eq!(g.press_weapon(WEAPON_PISTOL), WeaponPress::Selected);
    assert_eq!(g.press_weapon(WEAPON_MINIGUN), WeaponPress::Selected);
    assert_eq!(g.fire_timer.elapsed_ms, 0);
    let out = g.tick(1, holding_fire());
    assert!(!out.fired);
}

#[test]
fn zombie_past_bottom_latches_game_over_and_freezes_clock() {
    let mut g = GameState::new();
    let _ = g.tick(1_000, idle());
    assert_eq!(g.survival_ms, 1_000);
    // Plant a zombie just above the boundary; one second of falling at
    // 50 px/s carries it far past.
    g.zombies = vec![Zombie { x: 0, y: BOTTOM_Y + 1_000, health: 50, max_health: 50 }];
    let out = g.tick(1_000, idle());
    assert_eq!(g.round, RoundState::GameOver);
    assert!(out.show_overlay);
    assert_eq!(g.survival_ms, 2_000);
    // Lost: the overlay is requested only once, and the clock is frozen.
    let out = g.tick(1_000, idle());
    assert!(!out.show_overlay);
    assert!(g.overlay_shown);
    assert_eq!(g.round, RoundState::GameOver);
    assert_eq!(g.survival_ms, 2_000);
}

#[test]
fn restart_resets_round_and_keeps_progress() {
    let mut g = GameState::new();
    g.progression.score = 300;
    assert_eq!(g.press_weapon(WEAPON_SHOTGUN), WeaponPress::Purchased);
    // Play until the wave has ramped, spawned and been lost.
    for _ in 0..4 {
        let _ = g.tick(8_000, firing_edge());
    }
    assert_eq!(g.round, RoundState::GameOver);
    assert!(g.survival_ms > 0);
    assert!(g.stats.speed > 50_000);

    let score_before = g.progression.score;
    let player_before = g.player_x;
    g.restart();
    assert_eq!(g.round, RoundState::Playing);
    assert_eq!(g.survival_ms, 0);
    assert_eq!(g.stats.speed, 50_000);
    assert_eq!(g.stats.spawn_interval_ms, INITIAL_SPAWN_INTERVAL_MS);
    assert_eq!(g.stats.health, INITIAL_ZOMBIE_HEALTH);
    assert_eq!(g.spawn_timer.duration_ms(), INITIAL_SPAWN_INTERVAL_MS);
    assert_eq!(g.spawn_timer.elapsed_ms, 0);
    assert!(g.zombies.is_empty());
    assert!(g.bullets.is_empty());
    assert!(!g.overlay_shown);
    assert_eq!(g.progression.score, score_before);
    assert!(g.progression.weapons.purchased[WEAPON_SHOTGUN]);
    assert_eq!(g.player_x, player_before);
}

#[test]
fn restart_twice_equals_restart_once() {
    let mut g = GameState::new();
    g.progression.score = 120;
    for _ in 0..4 {
        let _ = g.tick(8_000, firing_edge());
    }
    g.restart();
    let after_once = g.clone();
    g.restart();
    assert_eq!(g, after_once);
}

#[test]
fn kill_through_pipeline_yields_indicators_near_the_zombie() {
    let mut g = GameState::new();
    // A weak zombie straight above the muzzle, close enough that this
    // frame's bullet lands at once.
    g.zombies = vec![Zombie { x: 0, y: PLAYER_Y + 30_000 + 20_000, health: 25, max_health: 50 }];
    let out = g.tick(1, firing_edge());
    assert!(out.fired);
    assert!(g.zombies.is_empty());
    assert_eq!(g.progression.score, 100);
    assert_eq!(g.floats.len(), 2);
    let zx: i64 = 0;
    for f in g.floats.iter() {
        assert!(f.x - zx >= -10_000 && f.x - zx < 10_000);
        assert_eq!(f.remaining_ms, INDICATOR_LIFETIME_MS);
    }
    assert_eq!(g.floats[0].kind, ScoreKind::Hit);
    assert_eq!(g.floats[0].amount, 10);
    assert_eq!(g.floats[1].kind, ScoreKind::Kill);
    assert_eq!(g.floats[1].amount, 100);
}

#[test]
fn indicators_drift_up_and_expire() {
    let mut g = GameState::new();
    g.floats = vec![FloatingScore {
        x: 0,
        y: 100_000,
        amount: 10,
        kind: ScoreKind::Hit,
        remaining_ms: INDICATOR_LIFETIME_MS,
    }];
    let _ = g.tick(100, idle());
    assert_eq!(g.floats.len(), 1);
    assert_eq!(g.floats[0].y, 102_000);
    assert_eq!(g.floats[0].remaining_ms, 400);
    let _ = g.tick(400, idle());
    assert!(g.floats.is_empty());
}
