//! Per-enemy state and the aggro/chase/return behaviour, re-derived each tick
//! from the enemy's position, its spawn anchor and the player's position.

use crate::entities::{get_facing_direction, spec_facing_direction, Facing, Health, HEALTH_LIMIT};
use crate::geometry::{dist_sq, spec_dist_sq, spec_step_toward, step_toward, Vec3};
use vstd::prelude::*;

verus! {

/// Upper bound on an enemy's per-tick speed, in milli-pixels: a quarter of
/// the world speed bound, because the return branch moves at four times the
/// enemy's speed.
pub const ENEMY_SPEED_LIMIT: i64 = 250_000;

/// Upper bound on an aggro radius, in milli-pixels.
pub const AGGRO_RANGE_LIMIT: i64 = 1_000_000_000;

/// How far from its spawn anchor an enemy may stand and still count as
/// having arrived home, in milli-pixels.
pub const RETURN_EPSILON: i64 = 2_000;

/// Signals that an enemy was defeated; consumed by the leveling engine.
#[derive(Clone, Copy, Debug, PartialEq, Eq, Structural)]
pub struct EnemyDefeatedEvent;

/// An enemy combatant. `alive` is cleared by the damage resolution engine;
/// a cleared enemy is invisible to every later pipeline stage of the tick.
#[derive(Debug)]
pub struct Enemy {
    pub position: Vec3,
    pub facing: Facing,
    pub health: Health,
    pub speed: i64,
    pub level: u32,
    pub moving: bool,
    pub aggro_range: i64,
    pub aggro: bool,
    pub spawn_coords: Vec3,
    pub display_name: String,
    pub alive: bool,
}

impl Enemy {
    pub open spec fn wf(self) -> bool {
        &&& self.position.wf()
        &&& self.spawn_coords.wf()
        &&& self.health.wf()
        &&& 0 <= self.speed <= ENEMY_SPEED_LIMIT
        &&& 0 < self.aggro_range <= AGGRO_RANGE_LIMIT
        &&& 1 <= self.level
        &&& self.alive ==> 0 < self.health.current
    }

    /// An enemy as it stands at its spawn burst: anchored at `coords`, full
    /// health, not yet aggroed.
    pub fn spawn(coords: Vec3, facing: Facing, display_name: String) -> (e: Enemy)
        requires
            coords.wf(),
        ensures
            e.position == coords,
            e.spawn_coords == coords,
            e.facing == facing,
            e.health == (Health { current: 130_000, max: 130_000 }),
            e.speed == 1_000,
            e.level == 3,
            e.aggro_range == 150_000,
            !e.aggro,
            !e.moving,
            e.alive,
            e.display_name@ == display_name@,
            e.wf(),
    {
        Enemy {
            position: coords,
            facing,
            health: Health::new(130_000),
            speed: 1_000,
            level: 3,
            moving: false,
            aggro_range: 150_000,
            aggro: false,
            spawn_coords: coords,
            display_name,
            alive: true,
        }
    }
}

impl Default for Enemy {
    /// The stock enemy: anchored at the origin, stock stats.
    fn default() -> (e: Enemy)
        ensures
            e.position == (Vec3 { x: 0, y: 0, z: 0 }),
            e.spawn_coords == (Vec3 { x: 0, y: 0, z: 0 }),
            e.facing == Facing::Down,
            e.health == (Health { current: 130_000, max: 130_000 }),
            e.speed == 1_000,
            e.level == 3,
            e.aggro_range == 150_000,
            !e.aggro,
            !e.moving,
            e.alive,
            e.display_name@.len() == 0,
            e.wf(),
    {
        Enemy::spawn(Vec3 { x: 0, y: 0, z: 0 }, Facing::Down, String::new())
    }
}

/// The three behavioural regions an enemy can be in, re-derived every tick.
#[derive(Clone, Copy, Debug, PartialEq, Eq, Structural)]
pub enum EnemyBehavior {
    Chasing,
    Returning,
    Idle,
}

/// The aggro radius in force this tick: tripled while the aggro flag is
/// set. The flag is cleared whenever a movement branch runs, so the boost
/// holds only until the enemy next chases or returns — a deliberate,
/// preserved quirk of the behaviour.
pub open spec fn spec_effective_aggro_range(e: Enemy) -> int {
    if e.aggro {
        3 * e.aggro_range
    } else {
        e.aggro_range as int
    }
}

/// Which branch the enemy takes this tick: chase the player inside the
/// effective aggro radius; otherwise walk back while away from the spawn
/// anchor; otherwise stand idle.
pub open spec fn spec_enemy_behavior(e: Enemy, player_pos: Vec3) -> EnemyBehavior {
    let er = spec_effective_aggro_range(e);
    if spec_dist_sq(player_pos, e.position) <= er * er {
        EnemyBehavior::Chasing
    } else if spec_dist_sq(e.spawn_coords, e.position) > RETURN_EPSILON * RETURN_EPSILON {
        EnemyBehavior::Returning
    } else {
        EnemyBehavior::Idle
    }
}

/// One tick of the enemy state machine. Chasing moves toward the player at
/// the enemy's speed; returning moves toward the spawn anchor at four times
/// that speed; both face the movement direction, mark the enemy moving and
/// clear the aggro flag. Idle halts the enemy and faces it down.
pub open spec fn spec_enemy_tick(e: Enemy, player_pos: Vec3) -> Enemy {
    match spec_enemy_behavior(e, player_pos) {
        EnemyBehavior::Chasing => Enemy {
            position: spec_step_toward(e.position, player_pos, e.speed as int),
            facing: spec_facing_direction(
                Vec3 {
                    x: (player_pos.x - e.position.x) as i64,
                    y: (player_pos.y - e.position.y) as i64,
                    z: (player_pos.z - e.position.z) as i64,
                },
            ),
            moving: true,
            aggro: false,
            ..e
        },
        EnemyBehavior::Returning => Enemy {
            position: spec_step_toward(e.position, e.spawn_coords, 4 * e.speed),
            facing: spec_facing_direction(
                Vec3 {
                    x: (e.spawn_coords.x - e.position.x) as i64,
                    y: (e.spawn_coords.y - e.position.y) as i64,
                    z: (e.spawn_coords.z - e.position.z) as i64,
                },
            ),
            moving: true,
            aggro: false,
            ..e
        },
        EnemyBehavior::Idle => Enemy { moving: false, facing: Facing::Down, ..e },
    }
}

/// Advances one enemy by one tick of the aggro/chase/return state machine.
pub fn move_enemy(e: &mut Enemy, player_pos: Vec3)
    requires
        old(e).wf(),
        player_pos.wf(),
    ensures
        *final(e) == spec_enemy_tick(*old(e), player_pos),
        final(e).wf(),
        final(e).health == old(e).health,
        final(e).alive == old(e).alive,
        spec_enemy_behavior(*old(e), player_pos) != EnemyBehavior::Idle ==> final(e).moving
            && !final(e).aggro,
        spec_enemy_behavior(*old(e), player_pos) == EnemyBehavior::Idle ==> !final(e).moving
            && final(e).position == old(e).position,
{
    let dp: u64 = dist_sq(player_pos, e.position);
    let er: i64 = if e.aggro {
        3 * e.aggro_range
    } else {
        e.aggro_range
    };
    proof {
        assert(er as int * er as int <= 9_000_000_000_000_000_000) by (nonlinear_arith)
            requires
                0 <= er as int <= 3_000_000_000,
        ;
    }
    let er_sq: u64 = (er as u64) * (er as u64);
    if dp <= er_sq {
        let direction = Vec3::new(
            player_pos.x - e.position.x,
            player_pos.y - e.position.y,
            player_pos.z - e.position.z,
        );
        e.position = step_toward(e.position, player_pos, e.speed);
        e.facing = get_facing_direction(direction);
        e.moving = true;
        e.aggro = false;
    } else {
        let ds: u64 = dist_sq(e.spawn_coords, e.position);
        if ds > (RETURN_EPSILON * RETURN_EPSILON) as u64 {
            let direction = Vec3::new(
                e.spawn_coords.x - e.position.x,
                e.spawn_coords.y - e.position.y,
                e.spawn_coords.z - e.position.z,
            );
            e.position = step_toward(e.position, e.spawn_coords, 4 * e.speed);
            e.facing = get_facing_direction(direction);
            e.moving = true;
            e.aggro = false;
        } else {
            e.moving = false;
            e.facing = Facing::Down;
        }
    }
}

/// A mutable borrow of one arena slot.
pub(crate) fn enemy_at_mut(v: &mut Vec<Enemy>, i: usize) -> (element: &mut Enemy)
    requires
        i < old(v).len(),
    ensures
        *element == old(v)@[i as int],
        final(v)@ == old(v)@.update(i as int, *final(element)),
{
    &mut v[i]
}

/// Advances every living enemy by one tick. Defeated enemies are inert.
pub fn move_enemies(enemies: &mut Vec<Enemy>, player_pos: Vec3)
    requires
        forall|i: int| 0 <= i < old(enemies)@.len() ==> #[trigger] old(enemies)@[i].wf(),
        player_pos.wf(),
    ensures
        final(enemies)@.len() == old(enemies)@.len(),
        forall|i: int|
            0 <= i < old(enemies)@.len() ==> #[trigger] final(enemies)@[i] == (
            if old(enemies)@[i].alive {
                spec_enemy_tick(old(enemies)@[i], player_pos)
            } else {
                old(enemies)@[i]
            }),
        forall|i: int| 0 <= i < final(enemies)@.len() ==> #[trigger] final(enemies)@[i].wf(),
{
    let n: usize = enemies.len();
    let mut i: usize = 0;
    while i < n
        invariant
            n == old(enemies)@.len(),
            enemies@.len() == n,
            0 <= i <= n,
            player_pos.wf(),
            forall|j: int| 0 <= j < n ==> #[trigger] old(enemies)@[j].wf(),
            forall|j: int|
                i <= j < n ==> #[trigger] enemies@[j] == old(enemies)@[j],
            forall|j: int|
                0 <= j < i ==> #[trigger] enemies@[j] == (
                if old(enemies)@[j].alive {
                    spec_enemy_tick(old(enemies)@[j], player_pos)
                } else {
                    old(enemies)@[j]
                }),
            forall|j: int| 0 <= j < i ==> #[trigger] enemies@[j].wf(),
        decreases n - i,
    {
        let e = enemy_at_mut(enemies, i);
        if e.alive {
            move_enemy(e, player_pos);
        }
        i = i + 1;
    }
}

/// The enemy after a run of ticks against the given per-tick player
/// positions, oldest first.
pub open spec fn spec_enemy_ticks(e: Enemy, players: Seq<Vec3>) -> Enemy
    decreases players.len(),
{
    if players.len() == 0 {
        e
    } else {
        spec_enemy_tick(spec_enemy_ticks(e, players.drop_last()), players.last())
    }
}

/// An enemy standing exactly at its spawn anchor, with the player staying
/// outside its effective aggro radius on every tick, settles into idle on
/// the first tick and stays there for the whole run: it never moves and
/// never oscillates back into another branch.
pub proof fn lemma_anchored_enemy_settles_idle(e: Enemy, players: Seq<Vec3>)
    requires
        e.wf(),
        e.position == e.spawn_coords,
        players.len() >= 1,
        forall|i: int|
            0 <= i < players.len() ==> (#[trigger] spec_dist_sq(players[i], e.spawn_coords))
                > spec_effective_aggro_range(e) * spec_effective_aggro_range(e),
    ensures
        spec_enemy_ticks(e, players) == (Enemy { moving: false, facing: Facing::Down, ..e }),
    decreases players.len(),
{
    let idle = Enemy { moving: false, facing: Facing::Down, ..e };
    assert(spec_dist_sq(e.spawn_coords, e.spawn_coords) == 0);
    if players.len() == 1 {
        assert(spec_enemy_ticks(e, players.drop_last()) == e);
        assert(spec_dist_sq(players[0], e.position) > spec_effective_aggro_range(e)
            * spec_effective_aggro_range(e));
        assert(spec_enemy_behavior(e, players.last()) == EnemyBehavior::Idle);
    } else {
        let prefix = players.drop_last();
        assert(forall|i: int|
            0 <= i < prefix.len() ==> (#[trigger] spec_dist_sq(prefix[i], e.spawn_coords))
                > spec_effective_aggro_range(e) * spec_effective_aggro_range(e)) by {
            assert(forall|i: int| 0 <= i < prefix.len() ==> prefix[i] == players[i]);
        }
        lemma_anchored_enemy_settles_idle(e, prefix);
        assert(spec_enemy_ticks(e, prefix) == idle);
        assert(spec_effective_aggro_range(idle) == spec_effective_aggro_range(e));
        assert(spec_dist_sq(players.last(), idle.position) > spec_effective_aggro_range(idle)
            * spec_effective_aggro_range(idle));
        assert(spec_enemy_behavior(idle, players.last()) == EnemyBehavior::Idle);
        assert(spec_enemy_tick(idle, players.last()) == idle);
    }
}

/// Width of an enemy's health-bar foreground, in milli-pixels: the tile
/// width scaled by the health fraction, with negative health shown as empty.
pub open spec fn spec_hp_bar_width(total_health: int, new_health: int) -> int {
    let shown = if new_health < 0 {
        0
    } else {
        new_health
    };
    crate::TILE_SIZE * shown / total_health
}

/// Computes the health-bar foreground width the presentation layer shows.
pub fn hp_bar_width(total_health: i64, new_health: i64) -> (w: i64)
    requires
        0 < total_health <= HEALTH_LIMIT,
        new_health <= total_health,
    ensures
        w == spec_hp_bar_width(total_health as int, new_health as int),
        0 <= w <= crate::TILE_SIZE,
{
    let shown: i64 = if new_health < 0 {
        0
    } else {
        new_health
    };
    proof {
        assert(crate::TILE_SIZE * shown <= crate::TILE_SIZE * total_health) by (nonlinear_arith)
            requires
                0 <= shown <= total_health,
        ;
        vstd::arithmetic::div_mod::lemma_div_is_ordered(
            crate::TILE_SIZE * shown,
            crate::TILE_SIZE * total_health,
            total_health as int,
        );
        vstd::arithmetic::div_mod::lemma_div_multiples_vanish(
            crate::TILE_SIZE as int,
            total_health as int,
        );
        vstd::arithmetic::div_mod::lemma_div_pos_is_pos(
            crate::TILE_SIZE * shown,
            total_health as int,
        );
    }
    (crate::TILE_SIZE * shown) / total_health
}

} // verus!
