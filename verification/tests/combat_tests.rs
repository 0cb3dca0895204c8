//! Combat resolution, entity movement and culling.

use zombie_wave::combat::{resolve_combat, ScoreKind};
use zombie_wave::entities::{
    check_zombie_bottom, healthbar_width, move_bullets, move_zombies, player_step, spawn_zombie,
    Bullet, Zombie,
};
use zombie_wave::{BOTTOM_Y, HIT_RADIUS_MILLI, PLAYER_X_LIMIT, SPAWN_Y};

fn zombie_at(x: i64, y: i64, health: i64) -> Zombie {
    Zombie { x, y, health, max_health: health as u32 }
}

fn bullet_at(x: i64, y: i64) -> Bullet {
    Bullet { x, y, dx: 0, dy: 1000 }
}

#[test]
fn hit_at_exact_radius_is_a_miss() {
    // Distance exactly 25 px: strict comparison, no hit.
    let mut bullets = vec![bullet_at(0, 0)];
    let mut zombies = vec![zombie_at(HIT_RADIUS_MILLI, 0, 50)];
    let mut score: u32 = 0;
    let events = resolve_combat(&mut bullets, &mut zombies, &mut score);
    assert_eq!(zombies[0].health, 50);
    assert_eq!(score, 0);
    assert_eq!(bullets.len(), 1);
    assert!(events.is_empty());
}

#[test]
fn hit_just_inside_radius_lands() {
    // Distance 24.999 px: a hit.
    let mut bullets = vec![bullet_at(0, 0)];
    let mut zombies = vec![zombie_at(HIT_RADIUS_MILLI - 1, 0, 50)];
    let mut score: u32 = 0;
    let events = resolve_combat(&mut bullets, &mut zombies, &mut score);
    assert_eq!(zombies[0].health, 25);
    assert_eq!(score, 10);
    assert!(bullets.is_empty());
    assert_eq!(events.len(), 1);
    assert_eq!(events[0].amount, 10);
    assert_eq!(events[0].kind, ScoreKind::Hit);
    assert_eq!(events[0].x, 24_999);
}

#[test]
fn base_zombie_dies_on_second_hit_for_110_points() {
    // A health-50 zombie: first hit leaves 25 (alive), the second lands at
    // exactly 0 and the inclusive kill check destroys it; the score after
    // the two hits is 10 + 10 + 90 = 110.
    let mut zombies = vec![zombie_at(0, 100_000, 50)];
    let mut score: u32 = 0;

    let mut bullets = vec![bullet_at(0, 100_000)];
    let ev1 = resolve_combat(&mut bullets, &mut zombies, &mut score);
    assert_eq!(zombies.len(), 1);
    assert_eq!(zombies[0].health, 25);
    assert_eq!(score, 10);
    assert_eq!(ev1.len(), 1);

    let mut bullets = vec![bullet_at(0, 100_000)];
    let ev2 = resolve_combat(&mut bullets, &mut zombies, &mut score);
    assert!(zombies.is_empty());
    assert_eq!(score, 110);
    assert_eq!(ev2.len(), 2);
    assert_eq!(ev2[0].kind, ScoreKind::Hit);
    assert_eq!(ev2[0].amount, 10);
    assert_eq!(ev2[1].kind, ScoreKind::Kill);
    assert_eq!(ev2[1].amount, 100);
}

#[test]
fn bullet_spends_itself_on_first_zombie_in_order() {
    // Two zombies in range: the bullet hits the first of the column and the
    // second is untouched.
    let mut bullets = vec![bullet_at(0, 0)];
    let mut zombies = vec![zombie_at(5_000, 0, 50), zombie_at(-5_000, 0, 50)];
    let mut score: u32 = 0;
    let _ = resolve_combat(&mut bullets, &mut zombies, &mut score);
    assert_eq!(zombies[0].health, 25);
    assert_eq!(zombies[1].health, 50);
    assert_eq!(score, 10);
    assert!(bullets.is_empty());
}

#[test]
fn one_zombie_can_take_several_bullets_in_one_frame() {
    let mut bullets = vec![bullet_at(0, 0), bullet_at(1_000, 0), bullet_at(-1_000, 0)];
    let mut zombies = vec![zombie_at(0, 0, 75)];
    let mut score: u32 = 0;
    let events = resolve_combat(&mut bullets, &mut zombies, &mut score);
    // 75 -> 50 -> 25 -> 0: the third bullet kills.
    assert!(zombies.is_empty());
    assert_eq!(score, 10 + 10 + 10 + 90);
    assert!(bullets.is_empty());
    assert_eq!(events.len(), 4);
}

#[test]
fn combat_with_nothing_in_range_changes_nothing() {
    let mut bullets = vec![bullet_at(-300_000, -200_000)];
    let mut zombies = vec![zombie_at(300_000, 200_000, 50)];
    let mut score: u32 = 7;
    let events = resolve_combat(&mut bullets, &mut zombies, &mut score);
    assert_eq!(bullets.len(), 1);
    assert_eq!(zombies.len(), 1);
    assert_eq!(score, 7);
    assert!(events.is_empty());
    // Empty field: also a no-op.
    let mut no_bullets: Vec<Bullet> = Vec::new();
    let mut no_zombies: Vec<Zombie> = Vec::new();
    let ev = resolve_combat(&mut no_bullets, &mut no_zombies, &mut score);
    assert!(ev.is_empty());
    assert_eq!(score, 7);
}

#[test]
fn zombies_fall_at_stat_speed() {
    // 50 px/s for one second: 50 px down.
    let mut zombies = vec![zombie_at(0, SPAWN_Y, 50)];
    move_zombies(&mut zombies, 50_000, 1_000);
    assert_eq!(zombies[0].y, SPAWN_Y - 50_000);
    // A 16 ms frame: 50_000 * 16 / 1000 = 800 milli-pixels.
    move_zombies(&mut zombies, 50_000, 16);
    assert_eq!(zombies[0].y, SPAWN_Y - 50_000 - 800);
}

#[test]
fn bullets_fly_up_and_cull_at_the_top() {
    // 800 px/s straight up for 100 ms: 80 px.
    let mut bullets = vec![bullet_at(0, -220_000)];
    move_bullets(&mut bullets, 100);
    assert_eq!(bullets.len(), 1);
    assert_eq!(bullets[0].y, -140_000);
    // Another second would carry it past the 300 px cull row: discarded.
    move_bullets(&mut bullets, 1_000);
    assert!(bullets.is_empty());
}

#[test]
fn spread_bullet_drifts_sideways() {
    // A fan bullet with direction (195, 981) over half a second: x moves
    // 195 * 800 * 500 / 1000 = 78_000 milli-pixels.
    let mut bullets = vec![Bullet { x: 0, y: -220_000, dx: 195, dy: 981 }];
    move_bullets(&mut bullets, 500);
    assert_eq!(bullets.len(), 1);
    assert_eq!(bullets[0].x, 78_000);
    assert_eq!(bullets[0].y, -220_000 + 392_400);
}

#[test]
fn spawned_zombie_sits_on_spawn_row_with_wave_health() {
    let mut zombies: Vec<Zombie> = Vec::new();
    spawn_zombie(&mut zombies, -100_000, 70);
    assert_eq!(zombies.len(), 1);
    assert_eq!(zombies[0].x, -100_000);
    assert_eq!(zombies[0].y, SPAWN_Y);
    assert_eq!(zombies[0].health, 70);
    assert_eq!(zombies[0].max_health, 70);
}

#[test]
fn boundary_check_is_strict() {
    let on_line = vec![zombie_at(0, BOTTOM_Y, 50)];
    assert!(!check_zombie_bottom(&on_line));
    let below = vec![zombie_at(0, BOTTOM_Y - 1, 50)];
    assert!(check_zombie_bottom(&below));
    let empty: Vec<Zombie> = Vec::new();
    assert!(!check_zombie_bottom(&empty));
}

#[test]
fn player_clamps_at_play_field_edges() {
    // 500 px/s for 1 s from the centre: 500 px, clamped at 375.
    let x = player_step(0, false, true, 1_000);
    assert_eq!(x, PLAYER_X_LIMIT);
    let x = player_step(0, true, false, 1_000);
    assert_eq!(x, -PLAYER_X_LIMIT);
    // Both keys held cancel out; a short frame moves 500 * 16 milli-pixels.
    assert_eq!(player_step(1_234, true, true, 1_000), 1_234);
    assert_eq!(player_step(0, false, true, 16), 8_000);
}

#[test]
fn healthbar_scales_with_health_ratio() {
    assert_eq!(healthbar_width(25, 50), 12_500);
    assert_eq!(healthbar_width(50, 50), 25_000);
    assert_eq!(healthbar_width(1, 3), 8_333);
}
