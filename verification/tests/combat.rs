use nbol_core::abilities::{
    despawn_timed_projectiles, projectile_collision, projectile_mouvement, Projectile,
};
use nbol_core::damage::{
    apply_damage_system, apply_damage_with_rolls, apply_intent, draw_crit_roll, resolve_crit,
    CriticalHit, DamageEvent, DisplayDamageNumbersEvent,
};
use nbol_core::enemy::{hp_bar_width, Enemy, EnemyDefeatedEvent};
use nbol_core::entities::{Facing, HealthUpdateEvent};
use nbol_core::geometry::Vec3;
use rand::{Rng, SeedableRng};

fn enemy_at(x: i64, y: i64) -> Enemy {
    Enemy::spawn(Vec3::new(x, y, 0), Facing::Down, "Skeleton".to_string())
}

fn fireball_at(x: i64, y: i64, facing: Facing) -> Projectile {
    let mut p = Projectile::default();
    p.position = Vec3::new(x, y, 0);
    p.facing = facing;
    p
}

#[test]
fn resolve_crit_with_zero_chance_never_scales() {
    let crit = CriticalHit::new(0, 2000);
    for roll in [0u32, 1, 500, 999] {
        assert_eq!(resolve_crit(35_000, crit, roll), 35_000);
    }
}

#[test]
fn resolve_crit_scales_when_the_roll_beats_the_chance() {
    let crit = CriticalHit::new(100, 2000);
    assert_eq!(resolve_crit(35_000, crit, 0), 70_000);
    assert_eq!(resolve_crit(35_000, crit, 99), 70_000);
    assert_eq!(resolve_crit(35_000, crit, 100), 35_000);
    assert_eq!(resolve_crit(35_000, crit, 999), 35_000);
}

#[test]
fn crit_rolls_stay_under_the_scale() {
    for _ in 0..200 {
        assert!(draw_crit_roll() < 1000);
    }
}

#[test]
fn crit_outcome_is_deterministic_for_a_fixed_seed() {
    let mut r1 = rand::rngs::StdRng::seed_from_u64(42);
    let mut r2 = rand::rngs::StdRng::seed_from_u64(42);
    let rolls1: Vec<u32> = (0..8).map(|_| r1.gen_range(0..1000)).collect();
    let rolls2: Vec<u32> = (0..8).map(|_| r2.gen_range(0..1000)).collect();
    assert_eq!(rolls1, rolls2);

    let events: Vec<DamageEvent> = (0..8)
        .map(|_| DamageEvent {
            damage: 10_000,
            crit_hit: CriticalHit::new(500, 2000),
            entity: 0,
        })
        .collect();
    let mut enemies1 = vec![enemy_at(0, 0)];
    let mut enemies2 = vec![enemy_at(0, 0)];
    let mut d1: Vec<DisplayDamageNumbersEvent> = Vec::new();
    let mut d2: Vec<DisplayDamageNumbersEvent> = Vec::new();
    let mut h1: Vec<HealthUpdateEvent> = Vec::new();
    let mut h2: Vec<HealthUpdateEvent> = Vec::new();
    let mut k1: Vec<EnemyDefeatedEvent> = Vec::new();
    let mut k2: Vec<EnemyDefeatedEvent> = Vec::new();
    apply_damage_with_rolls(&mut enemies1, &events, &rolls1, &mut d1, &mut h1, &mut k1);
    apply_damage_with_rolls(&mut enemies2, &events, &rolls2, &mut d2, &mut h2, &mut k2);
    assert_eq!(enemies1[0].health.current(), enemies2[0].health.current());
    assert_eq!(enemies1[0].alive, enemies2[0].alive);
    assert_eq!(k1.len(), k2.len());
}

#[test]
fn damage_subtracts_exactly_and_reports_health() {
    let mut enemies = vec![enemy_at(0, 0)];
    let mut displays: Vec<DisplayDamageNumbersEvent> = Vec::new();
    let mut healths: Vec<HealthUpdateEvent> = Vec::new();
    let mut defeated: Vec<EnemyDefeatedEvent> = Vec::new();
    let ev = DamageEvent { damage: 30_000, crit_hit: CriticalHit::new(0, 2000), entity: 0 };
    apply_intent(&mut enemies, ev, 0, &mut displays, &mut healths, &mut defeated);
    assert_eq!(enemies[0].health.current(), 100_000);
    assert!(enemies[0].alive);
    assert_eq!(displays.len(), 1);
    assert_eq!(displays[0].damage, 30_000);
    assert!(!displays[0].is_crit);
    assert_eq!(healths.len(), 1);
    assert_eq!(healths[0].total_health, 130_000);
    assert_eq!(healths[0].new_health, 100_000);
    assert_eq!(defeated.len(), 0);
}

#[test]
fn lethal_damage_fires_exactly_one_defeat_and_removes_the_enemy() {
    let mut enemies = vec![enemy_at(0, 0)];
    let mut displays: Vec<DisplayDamageNumbersEvent> = Vec::new();
    let mut healths: Vec<HealthUpdateEvent> = Vec::new();
    let mut defeated: Vec<EnemyDefeatedEvent> = Vec::new();
    let ev = DamageEvent { damage: 130_000, crit_hit: CriticalHit::new(0, 2000), entity: 0 };
    apply_intent(&mut enemies, ev, 0, &mut displays, &mut healths, &mut defeated);
    assert_eq!(enemies[0].health.current(), 0);
    assert!(!enemies[0].alive);
    assert_eq!(defeated.len(), 1);
}

#[test]
fn an_intent_against_a_dead_target_is_silently_dropped() {
    let mut enemies = vec![enemy_at(0, 0)];
    enemies[0].health.update(125_000); // 5000 left
    let mut displays: Vec<DisplayDamageNumbersEvent> = Vec::new();
    let mut healths: Vec<HealthUpdateEvent> = Vec::new();
    let mut defeated: Vec<EnemyDefeatedEvent> = Vec::new();
    let ev = DamageEvent { damage: 35_000, crit_hit: CriticalHit::new(0, 2000), entity: 0 };
    let events = vec![ev, ev];
    let rolls = vec![0u32, 0u32];
    apply_damage_with_rolls(&mut enemies, &events, &rolls, &mut displays, &mut healths, &mut defeated);
    // the first intent kills; the second finds no living target
    assert_eq!(enemies[0].health.current(), -30_000);
    assert!(!enemies[0].alive);
    assert_eq!(defeated.len(), 1);
    assert_eq!(displays.len(), 1);
    assert_eq!(healths.len(), 1);
}

#[test]
fn an_intent_against_a_missing_index_is_silently_dropped() {
    let mut enemies = vec![enemy_at(0, 0)];
    let mut displays: Vec<DisplayDamageNumbersEvent> = Vec::new();
    let mut healths: Vec<HealthUpdateEvent> = Vec::new();
    let mut defeated: Vec<EnemyDefeatedEvent> = Vec::new();
    let ev = DamageEvent { damage: 35_000, crit_hit: CriticalHit::new(0, 2000), entity: 9 };
    apply_intent(&mut enemies, ev, 0, &mut displays, &mut healths, &mut defeated);
    assert_eq!(enemies[0].health.current(), 130_000);
    assert_eq!(displays.len(), 0);
    assert_eq!(healths.len(), 0);
    assert_eq!(defeated.len(), 0);
}

#[test]
fn a_crit_that_changes_nothing_is_not_shown_as_a_crit() {
    // a multiplier of exactly one always beats the roll yet changes no
    // number, so the display flag stays off
    let mut enemies = vec![enemy_at(0, 0)];
    let mut displays: Vec<DisplayDamageNumbersEvent> = Vec::new();
    let mut healths: Vec<HealthUpdateEvent> = Vec::new();
    let mut defeated: Vec<EnemyDefeatedEvent> = Vec::new();
    let ev = DamageEvent { damage: 30_000, crit_hit: CriticalHit::new(1000, 1000), entity: 0 };
    apply_intent(&mut enemies, ev, 0, &mut displays, &mut healths, &mut defeated);
    assert_eq!(displays.len(), 1);
    assert_eq!(displays[0].damage, 30_000);
    assert!(!displays[0].is_crit);
}

#[test]
fn a_real_crit_is_shown_as_a_crit() {
    let mut enemies = vec![enemy_at(0, 0)];
    let mut displays: Vec<DisplayDamageNumbersEvent> = Vec::new();
    let mut healths: Vec<HealthUpdateEvent> = Vec::new();
    let mut defeated: Vec<EnemyDefeatedEvent> = Vec::new();
    let ev = DamageEvent { damage: 30_000, crit_hit: CriticalHit::new(1000, 2000), entity: 0 };
    apply_intent(&mut enemies, ev, 0, &mut displays, &mut healths, &mut defeated);
    assert_eq!(displays[0].damage, 60_000);
    assert!(displays[0].is_crit);
    assert_eq!(enemies[0].health.current(), 70_000);
}

#[test]
fn apply_damage_system_with_no_chance_is_fully_determined() {
    let mut enemies = vec![enemy_at(0, 0)];
    let mut displays: Vec<DisplayDamageNumbersEvent> = Vec::new();
    let mut healths: Vec<HealthUpdateEvent> = Vec::new();
    let mut defeated: Vec<EnemyDefeatedEvent> = Vec::new();
    let events = vec![
        DamageEvent { damage: 10_000, crit_hit: CriticalHit::new(0, 2000), entity: 0 },
        DamageEvent { damage: 20_000, crit_hit: CriticalHit::new(0, 3000), entity: 0 },
    ];
    apply_damage_system(&mut enemies, &events, &mut displays, &mut healths, &mut defeated);
    assert_eq!(enemies[0].health.current(), 100_000);
    assert_eq!(displays.len(), 2);
    assert_eq!(displays[0].damage, 10_000);
    assert_eq!(displays[1].damage, 20_000);
}

#[test]
fn projectile_hits_the_first_living_enemy_only() {
    let enemies = vec![enemy_at(10_000, 0), enemy_at(0, 10_000)];
    let mut projectiles = vec![fireball_at(0, 0, Facing::Right)];
    let mut events: Vec<DamageEvent> = Vec::new();
    projectile_collision(&mut projectiles, &enemies, &mut events);
    assert_eq!(events.len(), 1);
    assert_eq!(events[0].entity, 0);
    assert_eq!(events[0].damage, 35_000);
    assert!(!projectiles[0].alive);
}

#[test]
fn projectile_skips_dead_enemies() {
    let mut enemies = vec![enemy_at(10_000, 0), enemy_at(0, 10_000)];
    enemies[0].alive = false;
    let mut projectiles = vec![fireball_at(0, 0, Facing::Right)];
    let mut events: Vec<DamageEvent> = Vec::new();
    projectile_collision(&mut projectiles, &enemies, &mut events);
    assert_eq!(events.len(), 1);
    assert_eq!(events[0].entity, 1);
}

#[test]
fn projectile_out_of_range_flies_on() {
    let enemies = vec![enemy_at(50_000, 0)];
    let mut projectiles = vec![fireball_at(0, 0, Facing::Right)];
    let mut events: Vec<DamageEvent> = Vec::new();
    projectile_collision(&mut projectiles, &enemies, &mut events);
    assert_eq!(events.len(), 0);
    assert!(projectiles[0].alive);
}

#[test]
fn projectile_moves_along_its_facing() {
    let mut projectiles = vec![fireball_at(0, 0, Facing::Right)];
    projectile_mouvement(&mut projectiles, 100);
    // 7.5 tiles/s over 64000 milli-pixels per tile for 0.1 s
    assert_eq!(projectiles[0].position.x, 48_000);
    assert_eq!(projectiles[0].position.y, 0);
    let mut down = vec![fireball_at(0, 0, Facing::Down)];
    projectile_mouvement(&mut down, 100);
    assert_eq!(down[0].position.y, -48_000);
}

#[test]
fn projectile_despawns_on_ttl_expiry_exactly() {
    // a 5.0 s countdown under 100 ms ticks survives 49 ticks and dies on
    // the 50th, at t = 5.0 s
    let mut projectiles = vec![fireball_at(0, 0, Facing::Up)];
    for _ in 0..49 {
        despawn_timed_projectiles(&mut projectiles, 100);
        assert!(projectiles[0].alive);
    }
    despawn_timed_projectiles(&mut projectiles, 100);
    assert!(!projectiles[0].alive);
    assert_eq!(projectiles[0].ttl.remaining, 0);
}

#[test]
fn a_collided_projectile_never_reaches_ttl_despawn() {
    let enemies = vec![enemy_at(10_000, 0)];
    let mut projectiles = vec![fireball_at(0, 0, Facing::Right)];
    // collides early in its life, at t = 1.2 s
    for _ in 0..12 {
        despawn_timed_projectiles(&mut projectiles, 100);
    }
    let mut events: Vec<DamageEvent> = Vec::new();
    projectile_collision(&mut projectiles, &enemies, &mut events);
    assert!(!projectiles[0].alive);
    assert!(projectiles[0].ttl.remaining > 0);
    // further countdown stages leave the despawned projectile untouched
    let before = projectiles[0].ttl.remaining;
    for _ in 0..100 {
        despawn_timed_projectiles(&mut projectiles, 100);
    }
    assert!(!projectiles[0].alive);
    assert_eq!(projectiles[0].ttl.remaining, before);
}

#[test]
fn hp_bar_width_scales_the_tile() {
    assert_eq!(hp_bar_width(130_000, 130_000), 64_000);
    assert_eq!(hp_bar_width(130_000, 65_000), 32_000);
    assert_eq!(hp_bar_width(130_000, 0), 0);
    assert_eq!(hp_bar_width(130_000, -20_000), 0);
}
