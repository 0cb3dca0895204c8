//! The numeric policy: timers, the difficulty ramp, and the purchase store.

use zombie_wave::difficulty::ZombieStats;
use zombie_wave::progression::{AbilityPress, ProgressionStore, WeaponPress};
use zombie_wave::timer::TickTimer;
use zombie_wave::{
    HEALTH_INCREMENT, INITIAL_SPAWN_INTERVAL_MS, INITIAL_ZOMBIE_HEALTH, INITIAL_ZOMBIE_SPEED,
    MIN_SPAWN_INTERVAL_MS, RAMP_INTERVAL_MS, SPAWN_DECREMENT_MS, SPEED_INCREMENT,
};

#[test]
fn timer_accumulates_and_fires_with_carryover() {
    let mut t = TickTimer::new(100);
    assert!(!t.tick(40));
    assert!(!t.tick(40));
    // 40 + 40 + 30 = 110: fires, and 10 ms carry into the next period.
    assert!(t.tick(30));
    assert_eq!(t.elapsed_ms, 10);
    assert_eq!(t.duration_ms(), 100);
    // One giant frame covering several periods still reports one completion.
    let mut u = TickTimer::new(100);
    assert!(u.tick(250));
    assert_eq!(u.elapsed_ms, 50);
}

#[test]
fn timer_set_duration_restarts_period() {
    let mut t = TickTimer::new(100);
    let _ = t.tick(60);
    t.set_duration(80);
    assert_eq!(t.duration_ms, 80);
    assert_eq!(t.elapsed_ms, 0);
}

#[test]
fn ramp_event_escalates_all_three_stats() {
    let mut s = ZombieStats::new();
    assert_eq!(s.speed, INITIAL_ZOMBIE_SPEED);
    assert_eq!(s.spawn_interval_ms, INITIAL_SPAWN_INTERVAL_MS);
    assert_eq!(s.health, INITIAL_ZOMBIE_HEALTH);
    // 7.999 s: no ramp yet.
    assert!(!s.tick(RAMP_INTERVAL_MS - 1));
    assert_eq!(s.speed, INITIAL_ZOMBIE_SPEED);
    // The 8 s mark: exactly one ramp event.
    assert!(s.tick(1));
    assert_eq!(s.speed, INITIAL_ZOMBIE_SPEED + SPEED_INCREMENT);
    assert_eq!(s.health, INITIAL_ZOMBIE_HEALTH + HEALTH_INCREMENT);
    assert_eq!(s.spawn_interval_ms, INITIAL_SPAWN_INTERVAL_MS - SPAWN_DECREMENT_MS);
}

#[test]
fn spawn_interval_never_drops_below_floor() {
    let mut s = ZombieStats::new();
    // Ten ramp events would take the interval from 2500 to 500 exactly;
    // five more must leave it pinned at the floor.
    for _ in 0..15 {
        assert!(s.tick(RAMP_INTERVAL_MS));
    }
    assert_eq!(s.spawn_interval_ms, MIN_SPAWN_INTERVAL_MS);
    // `max(spawn_interval - decrement, floor)` from an interval between
    // floor and floor + decrement also lands exactly on the floor.
    let mut near = ZombieStats::new();
    near.spawn_interval_ms = MIN_SPAWN_INTERVAL_MS + SPAWN_DECREMENT_MS / 2;
    assert!(near.tick(RAMP_INTERVAL_MS));
    assert_eq!(near.spawn_interval_ms, MIN_SPAWN_INTERVAL_MS);
}

#[test]
fn ramp_fires_once_per_period_repeatedly() {
    let mut s = ZombieStats::new();
    let mut ramps: u32 = 0;
    for _ in 0..16 {
        if s.tick(RAMP_INTERVAL_MS / 4) {
            ramps += 1;
        }
    }
    assert_eq!(ramps, 4);
    assert_eq!(s.speed, INITIAL_ZOMBIE_SPEED + 4 * SPEED_INCREMENT);
}

#[test]
fn purchase_rejected_when_score_short() {
    // Ability 0 costs 50: with score 40 the press changes nothing.
    let mut p = ProgressionStore::new();
    p.score = 40;
    let r = p.press_ability(0);
    assert_eq!(r, AbilityPress::InsufficientFunds);
    assert_eq!(p.score, 40);
    assert!(!p.abilities.purchased[0]);
    assert!(!p.abilities.active[0]);
}

#[test]
fn purchase_accepted_when_score_covers_cost() {
    // Ability 0 costs 50: with score 60 the press buys and enables it.
    let mut p = ProgressionStore::new();
    p.score = 60;
    let r = p.press_ability(0);
    assert_eq!(r, AbilityPress::Purchased);
    assert_eq!(p.score, 10);
    assert!(p.abilities.purchased[0]);
    assert!(p.abilities.active[0]);
}

#[test]
fn ability_press_toggles_once_owned() {
    let mut p = ProgressionStore::new();
    p.score = 200;
    assert_eq!(p.press_ability(1), AbilityPress::Purchased);
    assert_eq!(p.score, 100);
    assert_eq!(p.press_ability(1), AbilityPress::Toggled(false));
    assert!(p.abilities.purchased[1]);
    assert!(!p.abilities.active[1]);
    assert_eq!(p.press_ability(1), AbilityPress::Toggled(true));
    assert!(p.abilities.active[1]);
    // Toggling never re-deducts the cost.
    assert_eq!(p.score, 100);
}

#[test]
fn weapon_purchase_selects_and_selection_is_exclusive() {
    let mut p = ProgressionStore::new();
    assert_eq!(p.weapons.active, 0);
    p.score = 150;
    // Shotgun costs 100.
    assert_eq!(p.press_weapon(1), WeaponPress::Purchased);
    assert_eq!(p.score, 50);
    assert_eq!(p.weapons.active, 1);
    assert!(p.weapons.purchased[1]);
    // Minigun costs 200: out of reach now.
    assert_eq!(p.press_weapon(2), WeaponPress::InsufficientFunds);
    assert_eq!(p.weapons.active, 1);
    assert!(!p.weapons.purchased[2]);
    // Re-pressing an owned weapon only selects it.
    assert_eq!(p.press_weapon(0), WeaponPress::Selected);
    assert_eq!(p.weapons.active, 0);
    assert_eq!(p.score, 50);
}
