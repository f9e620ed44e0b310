use nbol_core::entities::{get_facing_direction, Facing, Health};
use nbol_core::geometry::{clamp_coord, dist_sq, isqrt, step_toward, Vec3};

fn v(x: i64, y: i64, z: i64) -> Vec3 {
    Vec3::new(x, y, z)
}

#[test]
fn facing_x_axis_wins_when_strictly_larger() {
    assert_eq!(get_facing_direction(v(5, 3, 0)), Facing::Right);
    assert_eq!(get_facing_direction(v(-5, 3, 0)), Facing::Left);
    assert_eq!(get_facing_direction(v(5, -3, 0)), Facing::Right);
    assert_eq!(get_facing_direction(v(-5, -3, 0)), Facing::Left);
}

#[test]
fn facing_y_axis_wins_otherwise() {
    assert_eq!(get_facing_direction(v(3, 5, 0)), Facing::Up);
    assert_eq!(get_facing_direction(v(3, -5, 0)), Facing::Down);
    assert_eq!(get_facing_direction(v(-3, 5, 0)), Facing::Up);
    assert_eq!(get_facing_direction(v(-3, -5, 0)), Facing::Down);
}

#[test]
fn facing_ties_go_to_the_y_axis() {
    assert_eq!(get_facing_direction(v(4, 4, 0)), Facing::Up);
    assert_eq!(get_facing_direction(v(4, -4, 0)), Facing::Down);
    assert_eq!(get_facing_direction(v(0, 0, 0)), Facing::Down);
}

#[test]
fn facing_ignores_z() {
    assert_eq!(get_facing_direction(v(5, 3, 1_000_000)), Facing::Right);
}

#[test]
fn isqrt_exact_values() {
    assert_eq!(isqrt(0), 0);
    assert_eq!(isqrt(1), 1);
    assert_eq!(isqrt(15), 3);
    assert_eq!(isqrt(16), 4);
    assert_eq!(isqrt(24_999_999), 4999);
    assert_eq!(isqrt(25_000_000), 5000);
    assert_eq!(isqrt(u64::MAX), 4_294_967_295);
}

#[test]
fn dist_sq_is_the_squared_euclidean_distance() {
    assert_eq!(dist_sq(v(0, 0, 0), v(3000, 4000, 0)), 25_000_000);
    assert_eq!(isqrt(dist_sq(v(0, 0, 0), v(3000, 4000, 0))), 5000);
    assert_eq!(dist_sq(v(1000, 0, 0), v(0, 0, 1000)), 2_000_000);
}

#[test]
fn step_toward_moves_by_speed_along_the_line() {
    let r = step_toward(v(0, 0, 0), v(10_000, 0, 0), 1000);
    assert_eq!((r.x, r.y, r.z), (1000, 0, 0));
    let r = step_toward(v(100_000, 0, 0), v(0, 0, 0), 1000);
    assert_eq!((r.x, r.y, r.z), (99_000, 0, 0));
}

#[test]
fn step_toward_at_zero_distance_stays_put() {
    let r = step_toward(v(7, 8, 9), v(7, 8, 9), 1000);
    assert_eq!((r.x, r.y, r.z), (7, 8, 9));
}

#[test]
fn step_toward_overshoots_a_close_target() {
    // moving a full speed step across a shorter remaining distance passes
    // the target, as the unclamped movement rule dictates
    let r = step_toward(v(0, 0, 0), v(500, 0, 0), 1000);
    assert_eq!((r.x, r.y, r.z), (1000, 0, 0));
}

#[test]
fn clamp_coord_pins_the_world_bound() {
    assert_eq!(clamp_coord(2_000_000_000), 1_000_000_000);
    assert_eq!(clamp_coord(-2_000_000_000), -1_000_000_000);
    assert_eq!(clamp_coord(123), 123);
}

#[test]
fn health_new_current_max() {
    let h = Health::new(130_000);
    assert_eq!(h.current(), 130_000);
    assert_eq!(h.max(), 130_000);
}

#[test]
fn health_update_subtracts_without_clamping() {
    let mut h = Health::new(100_000);
    h.update(30_000);
    assert_eq!(h.current(), 70_000);
    h.update(90_000);
    assert_eq!(h.current(), -20_000);
    assert_eq!(h.max(), 100_000);
}
