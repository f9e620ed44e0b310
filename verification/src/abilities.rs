//! The projectile engine: fireballs spawned by the cast action move along
//! their fixed facing, hit the first enemy in range, and otherwise expire
//! when their time-to-live runs out.

use crate::damage::{CriticalHit, DamageEvent, BASE_DAMAGE_LIMIT};
use crate::enemy::Enemy;
use crate::entities::{DespawnTimer, Facing, DT_LIMIT};
use crate::geometry::{clamp_coord, dist_sq, spec_clamp_coord, spec_dist_sq, Vec3};
use vstd::prelude::*;

verus! {

/// Base damage of a fireball, in milli-points.
pub const FIREBALL_BASE_DAMAGE: i64 = 35_000;

/// Stock projectile speed: 7.5 tiles per second, in milli-pixels per second.
pub const PROJECTILE_SPEED: i64 = 480_000;

/// Upper bound on a projectile's speed, in milli-pixels per second.
pub const PROJECTILE_SPEED_LIMIT: i64 = 1_000_000_000;

/// Stock projectile time-to-live, in milliseconds.
pub const PROJECTILE_TTL: i64 = 5_000;

/// Hit radius of a projectile: three quarters of one tile, in milli-pixels.
pub const HIT_RADIUS: i64 = 48_000;

/// A projectile in flight. `alive` is cleared on collision or expiry; a
/// cleared projectile is invisible to every later pipeline stage.
#[derive(Clone, Copy, Debug, PartialEq, Eq, Structural)]
pub struct Projectile {
    pub position: Vec3,
    pub facing: Facing,
    pub speed: i64,
    pub damage: i64,
    pub crit_hit: CriticalHit,
    pub moving: bool,
    pub ttl: DespawnTimer,
    pub alive: bool,
}

impl Projectile {
    pub open spec fn wf(self) -> bool {
        &&& self.position.wf()
        &&& 0 <= self.speed <= PROJECTILE_SPEED_LIMIT
        &&& 0 <= self.damage <= BASE_DAMAGE_LIMIT
        &&& self.crit_hit.wf()
        &&& -(DT_LIMIT as i64) <= self.ttl.remaining <= 1_000_000_000_000
        &&& self.alive ==> self.ttl.remaining > 0
    }
}

impl Default for Projectile {
    /// The stock fireball: base damage, stock speed and time-to-live, a one
    /// in ten chance to deal double damage.
    fn default() -> (p: Projectile)
        ensures
            p.position == (Vec3 { x: 0, y: 0, z: 0 }),
            p.facing == Facing::Down,
            p.speed == PROJECTILE_SPEED,
            p.damage == FIREBALL_BASE_DAMAGE,
            p.crit_hit == (CriticalHit { chance: 100, multiplier: 2000 }),
            !p.moving,
            p.ttl.remaining == PROJECTILE_TTL,
            p.alive,
            p.wf(),
    {
        Projectile {
            position: Vec3 { x: 0, y: 0, z: 0 },
            facing: Facing::Down,
            speed: PROJECTILE_SPEED,
            damage: FIREBALL_BASE_DAMAGE,
            crit_hit: CriticalHit { chance: 100, multiplier: 2000 },
            moving: false,
            ttl: DespawnTimer { remaining: PROJECTILE_TTL },
            alive: true,
        }
    }
}

/// How far a projectile flies in one tick, in milli-pixels.
pub open spec fn spec_projectile_step(speed: int, dt: int) -> int {
    speed * dt / 1000
}

/// A projectile's position after one tick: it moves along its fixed facing
/// at its constant speed, clamped into the world bound.
pub open spec fn spec_projectile_position(p: Projectile, dt: int) -> Vec3 {
    let step = spec_projectile_step(p.speed as int, dt);
    match p.facing {
        Facing::Up => Vec3 { x: p.position.x, y: spec_clamp_coord(p.position.y + step) as i64, z: p.position.z },
        Facing::Down => Vec3 { x: p.position.x, y: spec_clamp_coord(p.position.y - step) as i64, z: p.position.z },
        Facing::Left => Vec3 { x: spec_clamp_coord(p.position.x - step) as i64, y: p.position.y, z: p.position.z },
        Facing::Right => Vec3 { x: spec_clamp_coord(p.position.x + step) as i64, y: p.position.y, z: p.position.z },
    }
}

/// Moves one projectile one tick along its facing.
fn move_projectile(p: &mut Projectile, dt: u32)
    requires
        old(p).wf(),
        dt <= DT_LIMIT,
    ensures
        *final(p) == (Projectile { position: spec_projectile_position(*old(p), dt as int), ..*old(p) }),
        final(p).wf(),
{
    proof {
        assert(0 <= p.speed as int * dt as int <= 1_000_000_000_000_000) by (nonlinear_arith)
            requires
                0 <= p.speed as int <= 1_000_000_000,
                0 <= dt as int <= 1_000_000,
        ;
        vstd::arithmetic::div_mod::lemma_div_pos_is_pos(p.speed as int * dt as int, 1000);
        vstd::arithmetic::div_mod::lemma_div_is_ordered(
            p.speed as int * dt as int,
            1_000_000_000_000_000,
            1000,
        );
    }
    let step: i64 = (p.speed * dt as i64) / 1000;
    match p.facing {
        Facing::Up => p.position.y = clamp_coord(p.position.y + step),
        Facing::Down => p.position.y = clamp_coord(p.position.y - step),
        Facing::Left => p.position.x = clamp_coord(p.position.x - step),
        Facing::Right => p.position.x = clamp_coord(p.position.x + step),
    }
}

/// Advances every projectile in flight one tick along its facing.
pub fn projectile_mouvement(projectiles: &mut Vec<Projectile>, dt: u32)
    requires
        forall|i: int| 0 <= i < old(projectiles)@.len() ==> #[trigger] old(projectiles)@[i].wf(),
        dt <= DT_LIMIT,
    ensures
        final(projectiles)@.len() == old(projectiles)@.len(),
        forall|i: int|
            0 <= i < old(projectiles)@.len() ==> #[trigger] final(projectiles)@[i] == (
            if old(projectiles)@[i].alive {
                Projectile {
                    position: spec_projectile_position(old(projectiles)@[i], dt as int),
                    ..old(projectiles)@[i]
                }
            } else {
                old(projectiles)@[i]
            }),
        forall|i: int| 0 <= i < final(projectiles)@.len() ==> #[trigger] final(projectiles)@[i].wf(),
{
    let n: usize = projectiles.len();
    let mut i: usize = 0;
    while i < n
        invariant
            0 <= i <= n,
            n == old(projectiles)@.len(),
            projectiles@.len() == n,
            dt <= DT_LIMIT,
            forall|j: int| 0 <= j < n ==> #[trigger] old(projectiles)@[j].wf(),
            forall|j: int| i <= j < n ==> #[trigger] projectiles@[j] == old(projectiles)@[j],
            forall|j: int|
                0 <= j < i ==> #[trigger] projectiles@[j] == (
                if old(projectiles)@[j].alive {
                    Projectile {
                        position: spec_projectile_position(old(projectiles)@[j], dt as int),
                        ..old(projectiles)@[j]
                    }
                } else {
                    old(projectiles)@[j]
                }),
            forall|j: int| 0 <= j < i ==> #[trigger] projectiles@[j].wf(),
        decreases n - i,
    {
        let p = projectiles[i];
        if p.alive {
            let mut q = p;
            move_projectile(&mut q, dt);
            projectiles.set(i, q);
        }
        i = i + 1;
    }
}

/// Ticks every in-flight projectile's time-to-live down by the tick's
/// duration and removes those whose countdown ran out.
pub fn despawn_timed_projectiles(projectiles: &mut Vec<Projectile>, dt: u32)
    requires
        forall|i: int| 0 <= i < old(projectiles)@.len() ==> #[trigger] old(projectiles)@[i].wf(),
        dt <= DT_LIMIT,
    ensures
        final(projectiles)@.len() == old(projectiles)@.len(),
        forall|i: int|
            0 <= i < old(projectiles)@.len() ==> #[trigger] final(projectiles)@[i] == (
            if old(projectiles)@[i].alive {
                Projectile {
                    ttl: DespawnTimer {
                        remaining: (old(projectiles)@[i].ttl.remaining - dt) as i64,
                    },
                    alive: old(projectiles)@[i].ttl.remaining - dt > 0,
                    ..old(projectiles)@[i]
                }
            } else {
                old(projectiles)@[i]
            }),
        forall|i: int| 0 <= i < final(projectiles)@.len() ==> #[trigger] final(projectiles)@[i].wf(),
{
    let n: usize = projectiles.len();
    let mut i: usize = 0;
    while i < n
        invariant
            0 <= i <= n,
            n == old(projectiles)@.len(),
            projectiles@.len() == n,
            dt <= DT_LIMIT,
            forall|j: int| 0 <= j < n ==> #[trigger] old(projectiles)@[j].wf(),
            forall|j: int| i <= j < n ==> #[trigger] projectiles@[j] == old(projectiles)@[j],
            forall|j: int|
                0 <= j < i ==> #[trigger] projectiles@[j] == (
                if old(projectiles)@[j].alive {
                    Projectile {
                        ttl: DespawnTimer {
                            remaining: (old(projectiles)@[j].ttl.remaining - dt) as i64,
                        },
                        alive: old(projectiles)@[j].ttl.remaining - dt > 0,
                        ..old(projectiles)@[j]
                    }
                } else {
                    old(projectiles)@[j]
                }),
            forall|j: int| 0 <= j < i ==> #[trigger] projectiles@[j].wf(),
        decreases n - i,
    {
        proof {
            assert(old(projectiles)@[i as int].wf());
            assert(projectiles@[i as int] == old(projectiles)@[i as int]);
        }
        let p = projectiles[i];
        if p.alive {
            let mut q = p;
            let finished = q.ttl.tick(dt);
            if finished {
                q.alive = false;
            }
            projectiles.set(i, q);
        }
        i = i + 1;
    }
}

/// A projectile after one expiry stage: its countdown advanced by the
/// tick's duration and the projectile removed when the countdown ran out;
/// a projectile already gone stays exactly as it is.
pub open spec fn spec_expire_once(p: Projectile, dt: int) -> Projectile {
    if p.alive {
        Projectile {
            ttl: DespawnTimer { remaining: (p.ttl.remaining - dt) as i64 },
            alive: p.ttl.remaining - dt > 0,
            ..p
        }
    } else {
        p
    }
}

/// A projectile after `n` expiry stages of `dt` milliseconds each.
pub open spec fn spec_expire_many(p: Projectile, dt: int, n: int) -> Projectile
    decreases n,
{
    if n <= 0 {
        p
    } else {
        spec_expire_once(spec_expire_many(p, dt, n - 1), dt)
    }
}

/// A projectile that never collides expires exactly when its time-to-live
/// runs out: after `n` ticks of `dt` milliseconds each it is still in
/// flight precisely while `n * dt` has not reached its countdown, so the
/// despawn lands on the first tick at or past the countdown — and a
/// projectile already gone (for instance, to a collision) never comes
/// back.
pub proof fn lemma_ttl_expiry(p: Projectile, dt: int, n: int)
    requires
        p.alive,
        0 < p.ttl.remaining <= 1_000_000_000_000,
        1 <= dt <= DT_LIMIT,
        0 <= n,
        n * dt <= 1_000_000_000_000_000,
    ensures
        spec_expire_many(p, dt, n).alive <==> p.ttl.remaining - n * dt > 0,
        spec_expire_many(p, dt, n).alive ==> spec_expire_many(p, dt, n).ttl.remaining
            == p.ttl.remaining - n * dt,
        -(DT_LIMIT as int) <= spec_expire_many(p, dt, n).ttl.remaining <= p.ttl.remaining,
    decreases n,
{
    if n == 0 {
        assert(n * dt == 0) by (nonlinear_arith)
            requires
                n == 0,
        ;
    } else {
        assert((n - 1) * dt == n * dt - dt) by (nonlinear_arith);
        assert(0 <= (n - 1) * dt) by (nonlinear_arith)
            requires
                1 <= n,
                1 <= dt,
        ;
        lemma_ttl_expiry(p, dt, n - 1);
        let q = spec_expire_many(p, dt, n - 1);
        assert(spec_expire_many(p, dt, n) == spec_expire_once(q, dt));
        if q.alive {
            assert(q.ttl.remaining == p.ttl.remaining - (n - 1) * dt);
            assert(spec_expire_once(q, dt).alive <==> p.ttl.remaining - n * dt > 0);
        } else {
            assert(p.ttl.remaining - (n - 1) * dt <= 0);
            assert(p.ttl.remaining - n * dt <= 0);
            assert(spec_expire_once(q, dt) == q);
        }
    }
}

/// The lowest-indexed living enemy within the hit radius of `pos`, if any.
pub open spec fn spec_first_hit_from(enemies: Seq<Enemy>, pos: Vec3, i: int) -> Option<int>
    decreases enemies.len() - i,
{
    if i < 0 || i >= enemies.len() {
        None
    } else if enemies[i].alive && spec_dist_sq(enemies[i].position, pos) < HIT_RADIUS
        * HIT_RADIUS {
        Some(i)
    } else {
        spec_first_hit_from(enemies, pos, i + 1)
    }
}

pub open spec fn spec_first_hit(enemies: Seq<Enemy>, pos: Vec3) -> Option<int> {
    spec_first_hit_from(enemies, pos, 0)
}

/// Scans the arena for the first living enemy within the hit radius.
fn find_first_hit(enemies: &Vec<Enemy>, pos: Vec3) -> (r: Option<usize>)
    requires
        forall|i: int| 0 <= i < enemies@.len() ==> #[trigger] enemies@[i].wf(),
        pos.wf(),
    ensures
        r matches Some(j) ==> spec_first_hit(enemies@, pos) == Some(j as int) && j
            < enemies@.len(),
        r is None ==> spec_first_hit(enemies@, pos) is None,
{
    let n: usize = enemies.len();
    let mut i: usize = 0;
    while i < n
        invariant
            0 <= i <= n,
            n == enemies@.len(),
            pos.wf(),
            forall|j: int| 0 <= j < n ==> #[trigger] enemies@[j].wf(),
            spec_first_hit(enemies@, pos) == spec_first_hit_from(enemies@, pos, i as int),
        decreases n - i,
    {
        proof {
            assert(enemies@[i as int].wf());
        }
        let hit_sq: u64 = (HIT_RADIUS * HIT_RADIUS) as u64;
        let e_alive = enemies[i].alive;
        let e_pos = enemies[i].position;
        if e_alive && dist_sq(e_pos, pos) < hit_sq {
            return Some(i);
        }
        i = i + 1;
    }
    None
}

/// The damage intent one colliding projectile emits.
pub open spec fn spec_hit_event(enemies: Seq<Enemy>, p: Projectile) -> Seq<DamageEvent> {
    if p.alive {
        match spec_first_hit(enemies, p.position) {
            Some(j) => seq![
                DamageEvent { damage: p.damage, crit_hit: p.crit_hit, entity: j as usize },
            ],
            None => Seq::empty(),
        }
    } else {
        Seq::empty()
    }
}

/// The damage intents a projectile volley emits, in projectile order.
pub open spec fn spec_collision_events(projs: Seq<Projectile>, enemies: Seq<Enemy>) -> Seq<
    DamageEvent,
>
    decreases projs.len(),
{
    if projs.len() == 0 {
        Seq::empty()
    } else {
        spec_collision_events(projs.drop_last(), enemies) + spec_hit_event(enemies, projs.last())
    }
}

/// A projectile after the collision scan: despawned exactly when some
/// living enemy stood within its hit radius.
pub open spec fn spec_collided_projectile(p: Projectile, enemies: Seq<Enemy>) -> Projectile {
    if p.alive && spec_first_hit(enemies, p.position) is Some {
        Projectile { alive: false, ..p }
    } else {
        p
    }
}

/// For each projectile in flight, finds the first living enemy within the
/// hit radius; on a hit, despawns the projectile at once, emits exactly one
/// damage intent against that enemy, and scans no further target for that
/// projectile.
pub fn projectile_collision(
    projectiles: &mut Vec<Projectile>,
    enemies: &Vec<Enemy>,
    ev_damage: &mut Vec<DamageEvent>,
)
    requires
        forall|i: int| 0 <= i < old(projectiles)@.len() ==> #[trigger] old(projectiles)@[i].wf(),
        forall|i: int| 0 <= i < enemies@.len() ==> #[trigger] enemies@[i].wf(),
        forall|i: int| 0 <= i < old(ev_damage)@.len() ==> #[trigger] old(ev_damage)@[i].wf(),
    ensures
        final(projectiles)@.len() == old(projectiles)@.len(),
        forall|i: int|
            0 <= i < old(projectiles)@.len() ==> #[trigger] final(projectiles)@[i]
                == spec_collided_projectile(old(projectiles)@[i], enemies@),
        final(ev_damage)@ == old(ev_damage)@ + spec_collision_events(old(projectiles)@, enemies@),
        forall|i: int| 0 <= i < final(ev_damage)@.len() ==> #[trigger] final(ev_damage)@[i].wf(),
        forall|i: int|
            old(ev_damage)@.len() <= i < final(ev_damage)@.len()
                ==> #[trigger] final(ev_damage)@[i].entity < enemies@.len(),
        forall|i: int| 0 <= i < final(projectiles)@.len() ==> #[trigger] final(projectiles)@[i].wf(),
{
    let n: usize = projectiles.len();
    let mut i: usize = 0;
    while i < n
        invariant
            0 <= i <= n,
            n == old(projectiles)@.len(),
            projectiles@.len() == n,
            forall|j: int| 0 <= j < n ==> #[trigger] old(projectiles)@[j].wf(),
            forall|j: int| 0 <= j < enemies@.len() ==> #[trigger] enemies@[j].wf(),
            forall|j: int| 0 <= j < old(ev_damage)@.len() ==> #[trigger] old(ev_damage)@[j].wf(),
            forall|j: int| i <= j < n ==> #[trigger] projectiles@[j] == old(projectiles)@[j],
            forall|j: int|
                0 <= j < i ==> #[trigger] projectiles@[j] == spec_collided_projectile(
                    old(projectiles)@[j],
                    enemies@,
                ),
            ev_damage@ == old(ev_damage)@ + spec_collision_events(
                old(projectiles)@.take(i as int),
                enemies@,
            ),
            forall|j: int| 0 <= j < ev_damage@.len() ==> #[trigger] ev_damage@[j].wf(),
            forall|j: int|
                old(ev_damage)@.len() <= j < ev_damage@.len() ==> #[trigger] ev_damage@[j].entity
                    < enemies@.len(),
            forall|j: int| 0 <= j < projectiles@.len() ==> #[trigger] projectiles@[j].wf(),
        decreases n - i,
    {
        proof {
            assert(old(projectiles)@.take(i + 1).drop_last() =~= old(projectiles)@.take(i as int));
            assert(old(projectiles)@.take(i + 1).last() == old(projectiles)@[i as int]);
            assert(old(projectiles)@[i as int].wf());
            assert(projectiles@[i as int] == old(projectiles)@[i as int]);
        }
        let p = projectiles[i];
        if p.alive {
            match find_first_hit(enemies, p.position) {
                Some(j) => {
                    let mut q = p;
                    q.alive = false;
                    projectiles.set(i, q);
                    ev_damage.push(
                        DamageEvent { damage: p.damage, crit_hit: p.crit_hit, entity: j },
                    );
                },
                None => {},
            }
        }
        proof {
            assert(ev_damage@ =~= old(ev_damage)@ + spec_collision_events(
                old(projectiles)@.take(i + 1),
                enemies@,
            ));
        }
        i = i + 1;
    }
    proof {
        assert(old(projectiles)@.take(n as int) =~= old(projectiles)@);
    }
}

} // verus!
