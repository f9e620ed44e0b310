use nbol_core::enemy::{move_enemy, Enemy, EnemyDefeatedEvent};
use nbol_core::entities::Facing;
use nbol_core::exp::{award_experience, xp_bar_permille, Experience, Level};
use nbol_core::geometry::Vec3;
use nbol_core::player::{
    animate_player, energy_system, player_mouvement, throw_fireball, update_player_graphics,
    InputState, Player, PlayerState,
};
use nbol_core::world::World;

fn enemy_at(x: i64, y: i64) -> Enemy {
    Enemy::spawn(Vec3::new(x, y, 0), Facing::Down, "Skeleton".to_string())
}

#[test]
fn xp_threshold_formula() {
    let xp = Experience::new(0);
    assert_eq!(xp.xp_to_next_level(1), 150_000);
    assert_eq!(xp.xp_to_next_level(4), 600_000);
}

#[test]
fn xp_bar_fill_is_the_fraction_of_the_threshold() {
    assert_eq!(xp_bar_permille(0, 1), 0);
    assert_eq!(xp_bar_permille(75_000, 1), 500);
    assert_eq!(xp_bar_permille(125_000, 1), 833);
}

#[test]
fn five_defeats_accumulate_without_leveling() {
    let mut level = Level::new(1);
    let mut xp = Experience::new(0);
    let defeats = vec![EnemyDefeatedEvent; 5];
    award_experience(&mut level, &mut xp, &defeats);
    assert_eq!(level.get(), 1);
    assert_eq!(xp.current(), 125_000);
}

#[test]
fn the_sixth_defeat_levels_up_and_resets_xp_to_exactly_zero() {
    let mut level = Level::new(1);
    let mut xp = Experience::new(0);
    let defeats = vec![EnemyDefeatedEvent; 6];
    award_experience(&mut level, &mut xp, &defeats);
    assert_eq!(level.get(), 2);
    assert_eq!(xp.current(), 0);
}

#[test]
fn one_level_up_per_defeat_at_most() {
    // a single defeat never crosses more than one threshold
    let mut level = Level::new(1);
    let mut xp = Experience::new(149_000);
    let defeats = vec![EnemyDefeatedEvent; 1];
    award_experience(&mut level, &mut xp, &defeats);
    assert_eq!(level.get(), 2);
    assert_eq!(xp.current(), 0);
}

#[test]
fn level_setter_and_getter_carry_the_value() {
    let mut level = Level::new(3);
    assert_eq!(level.get(), 3);
    level.update(7);
    assert_eq!(level.get(), 7);
}

#[test]
fn anchored_enemy_with_player_far_away_settles_idle_and_stays() {
    let mut e = enemy_at(0, 0);
    let far = Vec3::new(10_000_000, 0, 0);
    for _ in 0..100 {
        move_enemy(&mut e, far);
        assert!(!e.moving);
        assert_eq!(e.facing, Facing::Down);
        assert_eq!((e.position.x, e.position.y, e.position.z), (0, 0, 0));
    }
}

#[test]
fn enemy_in_aggro_range_chases_after_one_tick() {
    // enemy within aggro range, facing away from the player
    let mut e = enemy_at(100_000, 0);
    e.facing = Facing::Up;
    let player_pos = Vec3::new(0, 0, 0);
    move_enemy(&mut e, player_pos);
    assert!(e.moving);
    assert!(!e.aggro);
    assert_eq!(e.facing, Facing::Left); // toward the player
    assert_eq!(e.position.x, 99_000); // one speed step closer
    assert_eq!(e.position.y, 0);
}

#[test]
fn enemy_outside_range_returns_to_its_anchor_at_quadruple_speed() {
    let mut e = enemy_at(0, 0);
    e.position = Vec3::new(500_000, 0, 0);
    let far = Vec3::new(10_000_000, 0, 0);
    move_enemy(&mut e, far);
    assert!(e.moving);
    assert_eq!(e.facing, Facing::Left);
    assert_eq!(e.position.x, 496_000); // 4 * 1000 milli-pixels back
}

#[test]
fn player_moves_up_and_faces_up() {
    let mut p = Player::spawn();
    let mut input = InputState::none();
    input.up = true;
    player_mouvement(&mut p, &input, 1000);
    assert_eq!(p.position.y, 128_000);
    assert_eq!(p.state, PlayerState::Moving);
    assert_eq!(p.facing, Facing::Up);
}

#[test]
fn diagonal_movement_leaves_a_horizontal_facing() {
    let mut p = Player::spawn();
    let mut input = InputState::none();
    input.up = true;
    input.right = true;
    player_mouvement(&mut p, &input, 1000);
    assert_eq!(p.position.y, 128_000);
    assert_eq!(p.position.x, 128_000);
    assert_eq!(p.facing, Facing::Right);
}

#[test]
fn opposed_keys_cancel_and_leave_the_player_idle() {
    let mut p = Player::spawn();
    let mut input = InputState::none();
    input.up = true;
    input.down = true;
    player_mouvement(&mut p, &input, 1000);
    assert_eq!(p.position.y, 0);
    assert_eq!(p.state, PlayerState::Idle);
}

#[test]
fn boost_scales_movement_while_energy_lasts() {
    let mut p = Player::spawn();
    let mut input = InputState::none();
    input.right = true;
    input.boost = true;
    player_mouvement(&mut p, &input, 1000);
    assert_eq!(p.position.x, 192_000);
    // with no energy left the boost is ignored
    let mut drained = Player::spawn();
    drained.energy = 0;
    player_mouvement(&mut drained, &input, 1000);
    assert_eq!(drained.position.x, 128_000);
}

#[test]
fn boosted_movement_drains_energy_floored_at_zero() {
    let mut p = Player::spawn();
    p.state = PlayerState::Moving;
    energy_system(&mut p, true, 1000);
    assert_eq!(p.energy, 90_000);
    p.energy = 5_000;
    energy_system(&mut p, true, 1000);
    assert_eq!(p.energy, 0);
}

#[test]
fn energy_regenerates_capped_at_the_ceiling() {
    let mut p = Player::spawn();
    p.energy = 50_000;
    energy_system(&mut p, false, 1000);
    assert_eq!(p.energy, 65_000);
    p.energy = 99_000;
    energy_system(&mut p, false, 1000);
    assert_eq!(p.energy, 100_000);
}

#[test]
fn one_cast_press_spawns_exactly_one_projectile() {
    let mut p = Player::spawn();
    let mut projectiles = Vec::new();
    throw_fireball(&mut p, true, &mut projectiles);
    assert_eq!(projectiles.len(), 1);
    assert_eq!(p.state, PlayerState::Casting);
    assert_eq!(projectiles[0].damage, 36_750); // 35000 plus 5 percent at level 1
    assert_eq!(projectiles[0].ttl.remaining, 5_000);
}

#[test]
fn a_press_while_casting_spawns_nothing() {
    let mut p = Player::spawn();
    let mut projectiles = Vec::new();
    throw_fireball(&mut p, true, &mut projectiles);
    throw_fireball(&mut p, true, &mut projectiles);
    assert_eq!(projectiles.len(), 1);
    assert_eq!(p.state, PlayerState::Casting);
}

#[test]
fn fireball_damage_scales_five_percent_per_level() {
    let mut p = Player::spawn();
    p.level = Level::new(4);
    let mut projectiles = Vec::new();
    throw_fireball(&mut p, true, &mut projectiles);
    assert_eq!(projectiles[0].damage, 42_000);
}

#[test]
fn movement_is_gated_while_casting() {
    let mut p = Player::spawn();
    let mut projectiles = Vec::new();
    throw_fireball(&mut p, true, &mut projectiles);
    let mut input = InputState::none();
    input.up = true;
    let before = p.position;
    player_mouvement(&mut p, &input, 1000);
    assert_eq!(p.position, before);
    assert_eq!(p.state, PlayerState::Casting);
}

#[test]
fn the_cast_animation_cycle_completion_returns_the_player_to_idle() {
    let mut p = Player::spawn();
    let mut projectiles = Vec::new();
    throw_fireball(&mut p, true, &mut projectiles);
    update_player_graphics(&mut p);
    assert_eq!(p.animation.frames_len, 7);
    // one casting frame elapses per 50 ms tick; the cycle wraps after 7
    for _ in 0..6 {
        animate_player(&mut p, 50);
        assert_eq!(p.state, PlayerState::Casting);
    }
    animate_player(&mut p, 50);
    assert_eq!(p.state, PlayerState::Idle);
    assert_eq!(p.animation.current_frame, 0);
}

#[test]
fn world_tick_runs_the_enemy_state_machine() {
    let mut w = World::new(Player::spawn());
    let mut e = enemy_at(100_000, 0);
    e.facing = Facing::Up;
    w.add_enemy(e);
    w.tick(&InputState::none(), 16);
    assert!(w.enemies[0].moving);
    assert!(!w.enemies[0].aggro);
    assert_eq!(w.enemies[0].facing, Facing::Left);
    assert_eq!(w.enemies[0].position.x, 99_000);
}

#[test]
fn world_tick_cast_spawns_once_and_stays_gated() {
    let mut w = World::new(Player::spawn());
    let mut input = InputState::none();
    input.cast = true;
    w.tick(&input, 16);
    assert_eq!(w.projectiles.len(), 1);
    assert_eq!(w.player.state, PlayerState::Casting);
    // a second press while the cast animation still runs spawns nothing
    w.tick(&input, 16);
    assert_eq!(w.projectiles.len(), 1);
    assert_eq!(w.player.state, PlayerState::Casting);
}

#[test]
fn world_tick_resolves_a_hit_end_to_end() {
    let mut w = World::new(Player::spawn());
    w.add_enemy(enemy_at(10_000, 0));
    let mut input = InputState::none();
    input.cast = true;
    let out = w.tick(&input, 16);
    // the fireball spawns at the player and collides at once
    assert!(!w.projectiles[0].alive);
    assert_eq!(out.display_damage.len(), 1);
    assert_eq!(out.health_updates.len(), 1);
    let hp = w.enemies[0].health.current();
    // base 36750 at level one, possibly doubled by the crit roll
    assert!(hp == 130_000 - 36_750 || hp == 130_000 - 73_500);
    assert_eq!(out.defeated.len(), 0);
}

#[test]
fn world_tick_awards_xp_on_a_defeat() {
    let mut w = World::new(Player::spawn());
    let mut weak = enemy_at(10_000, 0);
    weak.health.update(125_000); // 5000 left, any hit defeats it
    w.add_enemy(weak);
    let mut input = InputState::none();
    input.cast = true;
    let out = w.tick(&input, 16);
    assert_eq!(out.defeated.len(), 1);
    assert!(!w.enemies[0].alive);
    assert_eq!(w.player.level.get(), 1);
    assert_eq!(w.player.experience.current(), 25_000);
}
