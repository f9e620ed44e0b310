//! The player controller: movement from directional input, the energy
//! economy of the speed boost, the casting state machine, and the cast
//! action that spawns a fireball.

use crate::abilities::{Projectile, FIREBALL_BASE_DAMAGE, PROJECTILE_SPEED, PROJECTILE_TTL};
use crate::damage::{CriticalHit, Damage, BASE_DAMAGE_LIMIT};
use crate::entities::{DespawnTimer, Facing, FrameAnimation, Health, DT_LIMIT};
use crate::exp::{spec_xp_wf, Experience, Level};
use crate::geometry::{clamp_coord, spec_clamp_coord, Vec3};
use vstd::prelude::*;

verus! {

/// Frames of the player's walking animation cycle.
pub const PLAYER_FRAMES: usize = 9;

/// Frames of the player's casting animation cycle.
pub const PLAYER_CAST_FRAMES: usize = 7;

/// Base player movement speed: two tiles per second, in milli-pixels per
/// second.
pub const PLAYER_SPEED: i64 = 128_000;

/// Upper bound on the player's speed, in milli-pixels per second.
pub const PLAYER_SPEED_LIMIT: i64 = 1_000_000;

/// Period of one walking animation frame, in milliseconds.
pub const ANIMATION_WALKING_PERIOD: u32 = 100;

/// Period of one casting animation frame, in milliseconds.
pub const ANIMATION_CASTING_PERIOD: u32 = 50;

/// Energy regained per second while not boosting, in milli-points.
pub const ENERGY_RECOVERY: i64 = 15_000;

/// Energy drained per second of boosted movement, in milli-points.
pub const ENERGY_COST: i64 = 10_000;

/// The energy ceiling, in milli-points.
pub const ENERGY_MAX: i64 = 100_000;

/// The directional, boost and cast input of one tick, sampled once.
#[derive(Clone, Copy, Debug, PartialEq, Eq, Structural)]
pub struct InputState {
    pub up: bool,
    pub down: bool,
    pub left: bool,
    pub right: bool,
    pub boost: bool,
    pub cast: bool,
}

impl InputState {
    /// A tick with nothing pressed.
    pub fn none() -> (s: InputState)
        ensures
            s == (InputState {
                up: false,
                down: false,
                left: false,
                right: false,
                boost: false,
                cast: false,
            }),
    {
        InputState { up: false, down: false, left: false, right: false, boost: false, cast: false }
    }
}

/// The player's state machine. Casting is sticky: only the completion of
/// the cast animation cycle leaves it.
#[derive(Clone, Copy, Debug, PartialEq, Eq, Structural, Default)]
pub enum PlayerState {
    #[default]
    Idle,
    Moving,
    Casting,
}

/// The player combatant.
#[derive(Clone, Copy, Debug, PartialEq, Eq, Structural)]
pub struct Player {
    pub position: Vec3,
    pub facing: Facing,
    pub state: PlayerState,
    pub speed: i64,
    pub energy: i64,
    pub health: Health,
    pub level: Level,
    pub experience: Experience,
    pub critical_hit: CriticalHit,
    pub damage: Damage,
    pub animation: FrameAnimation,
}

impl Player {
    pub open spec fn wf(self) -> bool {
        &&& self.position.wf()
        &&& 0 <= self.speed <= PLAYER_SPEED_LIMIT
        &&& 0 <= self.energy <= ENERGY_MAX
        &&& self.health.wf()
        &&& spec_xp_wf(self.level.0 as int, self.experience.0 as int)
        &&& self.critical_hit.wf()
        &&& 0 <= self.damage.0 <= BASE_DAMAGE_LIMIT
        &&& self.animation.wf()
    }

    /// The player as spawned at startup: at the origin, full health and
    /// energy, first level, stock crit and contact damage.
    pub fn spawn() -> (p: Player)
        ensures
            p.position == (Vec3 { x: 0, y: 0, z: 0 }),
            p.facing == Facing::Down,
            p.state == PlayerState::Idle,
            p.speed == PLAYER_SPEED,
            p.energy == ENERGY_MAX,
            p.health == (Health { current: 500_000, max: 500_000 }),
            p.level.0 == 1,
            p.experience.0 == 0,
            p.critical_hit == (CriticalHit { chance: 100, multiplier: 2000 }),
            p.damage.0 == 10_000,
            p.animation == (FrameAnimation {
                current_frame: 0,
                frames_len: PLAYER_FRAMES,
                acc_ms: 0,
                period_ms: ANIMATION_WALKING_PERIOD,
            }),
            p.wf(),
    {
        Player {
            position: Vec3 { x: 0, y: 0, z: 0 },
            facing: Facing::Down,
            state: PlayerState::Idle,
            speed: PLAYER_SPEED,
            energy: ENERGY_MAX,
            health: Health::new(500_000),
            level: Level::new(1),
            experience: Experience::new(0),
            critical_hit: CriticalHit::new(100, 2000),
            damage: Damage::new(10_000),
            animation: FrameAnimation::new(PLAYER_FRAMES, ANIMATION_WALKING_PERIOD),
        }
    }
}

impl Default for Player {
    fn default() -> (p: Player)
        ensures
            p == Player::spawn_spec(),
            p.wf(),
    {
        Player::spawn()
    }
}

impl Player {
    /// The value `Player::spawn` returns.
    pub open spec fn spawn_spec() -> Player {
        Player {
            position: Vec3 { x: 0, y: 0, z: 0 },
            facing: Facing::Down,
            state: PlayerState::Idle,
            speed: PLAYER_SPEED,
            energy: ENERGY_MAX,
            health: Health { current: 500_000, max: 500_000 },
            level: Level(1),
            experience: Experience(0),
            critical_hit: CriticalHit { chance: 100, multiplier: 2000 },
            damage: Damage(10_000),
            animation: FrameAnimation {
                current_frame: 0,
                frames_len: PLAYER_FRAMES,
                acc_ms: 0,
                period_ms: ANIMATION_WALKING_PERIOD,
            },
        }
    }
}

/// One tick's movement along one axis: the speed (half again as fast under
/// a boost) over the tick's duration.
pub open spec fn spec_move_step(speed: int, boosted: bool, dt: int) -> int {
    if boosted {
        (speed + speed / 2) * dt / 1000
    } else {
        speed * dt / 1000
    }
}

/// One tick of the movement handler. While casting, it is a no-op. Outside
/// casting, the state is recomputed from scratch: idle unless some axis
/// moves. The vertical axis is handled first, the horizontal axis second,
/// so a diagonal movement leaves a horizontal facing. The boost counts only
/// while some energy is left.
pub open spec fn spec_player_mouvement(p: Player, input: InputState, dt: int) -> Player {
    if p.state == PlayerState::Casting {
        p
    } else {
        let boosted = input.boost && p.energy > 0;
        let step = spec_move_step(p.speed as int, boosted, dt);
        let y_delta = (if input.up {
            step
        } else {
            0
        }) - (if input.down {
            step
        } else {
            0
        });
        let state_y = if y_delta != 0 {
            PlayerState::Moving
        } else {
            PlayerState::Idle
        };
        let facing_y = if y_delta > 0 {
            Facing::Up
        } else if y_delta < 0 {
            Facing::Down
        } else {
            p.facing
        };
        let x_delta = (if input.right {
            step
        } else {
            0
        }) - (if input.left {
            step
        } else {
            0
        });
        let state_x = if x_delta != 0 {
            PlayerState::Moving
        } else {
            state_y
        };
        let facing_x = if x_delta > 0 {
            Facing::Right
        } else if x_delta < 0 {
            Facing::Left
        } else {
            facing_y
        };
        Player {
            position: Vec3 {
                x: spec_clamp_coord(p.position.x + x_delta) as i64,
                y: spec_clamp_coord(p.position.y + y_delta) as i64,
                z: p.position.z,
            },
            facing: facing_x,
            state: state_x,
            ..p
        }
    }
}

/// Applies one tick of directional input to the player.
pub fn player_mouvement(p: &mut Player, input: &InputState, dt: u32)
    requires
        old(p).wf(),
        dt <= DT_LIMIT,
    ensures
        *final(p) == spec_player_mouvement(*old(p), *input, dt as int),
        final(p).wf(),
        old(p).state == PlayerState::Casting ==> *final(p) == *old(p),
{
    if p.state == PlayerState::Casting {
        return ;
    }
    let boosted = input.boost && p.energy > 0;
    let base: i64 = if boosted {
        p.speed + p.speed / 2
    } else {
        p.speed
    };
    proof {
        assert(0 <= base as int * dt as int <= 1_500_000_000_000) by (nonlinear_arith)
            requires
                0 <= base as int <= 1_500_000,
                0 <= dt as int <= 1_000_000,
        ;
        vstd::arithmetic::div_mod::lemma_div_pos_is_pos(base as int * dt as int, 1000);
        vstd::arithmetic::div_mod::lemma_div_is_ordered(
            base as int * dt as int,
            1_500_000_000_000,
            1000,
        );
    }
    let step: i64 = (base * dt as i64) / 1000;
    p.state = PlayerState::Idle;
    let y_delta: i64 = (if input.up {
        step
    } else {
        0
    }) - (if input.down {
        step
    } else {
        0
    });
    if y_delta != 0 {
        p.state = PlayerState::Moving;
        if y_delta > 0 {
            p.facing = Facing::Up;
        } else {
            p.facing = Facing::Down;
        }
    }
    p.position.y = clamp_coord(p.position.y + y_delta);
    let x_delta: i64 = (if input.right {
        step
    } else {
        0
    }) - (if input.left {
        step
    } else {
        0
    });
    if x_delta != 0 {
        p.state = PlayerState::Moving;
        if x_delta > 0 {
            p.facing = Facing::Right;
        } else {
            p.facing = Facing::Left;
        }
    }
    p.position.x = clamp_coord(p.position.x + x_delta);
}

/// One tick of the energy economy: boosted movement drains energy, floored
/// at zero; anything else regains it, capped at the ceiling.
pub open spec fn spec_energy_system(p: Player, boost_held: bool, dt: int) -> Player {
    if boost_held && p.state == PlayerState::Moving {
        let e = p.energy - ENERGY_COST * dt / 1000;
        Player {
            energy: (if e < 0 {
                0
            } else {
                e
            }) as i64,
            ..p
        }
    } else {
        let e = p.energy + ENERGY_RECOVERY * dt / 1000;
        Player {
            energy: (if e > ENERGY_MAX {
                ENERGY_MAX as int
            } else {
                e
            }) as i64,
            ..p
        }
    }
}

/// Applies one tick of the energy economy.
pub fn energy_system(p: &mut Player, boost_held: bool, dt: u32)
    requires
        old(p).wf(),
        dt <= DT_LIMIT,
    ensures
        *final(p) == spec_energy_system(*old(p), boost_held, dt as int),
        final(p).wf(),
{
    proof {
        vstd::arithmetic::div_mod::lemma_div_pos_is_pos(ENERGY_COST * dt as int, 1000);
        vstd::arithmetic::div_mod::lemma_div_is_ordered(
            ENERGY_COST * dt as int,
            10_000_000_000,
            1000,
        );
        vstd::arithmetic::div_mod::lemma_div_pos_is_pos(ENERGY_RECOVERY * dt as int, 1000);
        vstd::arithmetic::div_mod::lemma_div_is_ordered(
            ENERGY_RECOVERY * dt as int,
            15_000_000_000,
            1000,
        );
    }
    if boost_held && p.state == PlayerState::Moving {
        let drain: i64 = (ENERGY_COST * dt as i64) / 1000;
        p.energy = p.energy - drain;
        if p.energy < 0 {
            p.energy = 0;
        }
    } else {
        let gain: i64 = (ENERGY_RECOVERY * dt as i64) / 1000;
        p.energy = p.energy + gain;
        if p.energy > ENERGY_MAX {
            p.energy = ENERGY_MAX;
        }
    }
}

/// One tick of the player's animation clock. Idle leaves everything as it
/// is. Otherwise the clock runs at the walking or casting period; when a
/// frame period elapses, the cycle advances one frame, and a cycle that
/// wraps back to its start returns the player to idle — this is the only
/// exit from the casting state.
pub open spec fn spec_animate_player(p: Player, dt: int) -> Player {
    if p.state == PlayerState::Idle {
        p
    } else {
        let period = if p.state == PlayerState::Casting {
            ANIMATION_CASTING_PERIOD as int
        } else {
            ANIMATION_WALKING_PERIOD as int
        };
        let total = p.animation.acc_ms + dt;
        let acc2 = total % period;
        if total >= period {
            let nf = (p.animation.current_frame + 1) % (p.animation.frames_len as int);
            Player {
                animation: FrameAnimation {
                    current_frame: nf as usize,
                    frames_len: p.animation.frames_len,
                    acc_ms: acc2 as u32,
                    period_ms: period as u32,
                },
                state: if nf == 0 {
                    PlayerState::Idle
                } else {
                    p.state
                },
                ..p
            }
        } else {
            Player {
                animation: FrameAnimation {
                    current_frame: p.animation.current_frame,
                    frames_len: p.animation.frames_len,
                    acc_ms: acc2 as u32,
                    period_ms: period as u32,
                },
                ..p
            }
        }
    }
}

/// Advances the player's animation clock by one tick.
pub fn animate_player(p: &mut Player, dt: u32)
    requires
        old(p).wf(),
        dt <= DT_LIMIT,
    ensures
        *final(p) == spec_animate_player(*old(p), dt as int),
        final(p).wf(),
        old(p).state == PlayerState::Casting && final(p).state != PlayerState::Casting
            ==> final(p).animation.current_frame == 0,
{
    if p.state == PlayerState::Idle {
        return ;
    }
    let period: u32 = if p.state == PlayerState::Casting {
        ANIMATION_CASTING_PERIOD
    } else {
        ANIMATION_WALKING_PERIOD
    };
    p.animation.period_ms = period;
    let finished = p.animation.tick_clock(dt);
    if finished {
        let nf: usize = (p.animation.current_frame + 1) % p.animation.frames_len;
        p.animation.current_frame = nf;
        if nf == 0 {
            p.state = PlayerState::Idle;
        }
    }
}

/// Selects the animation cycle the player's state calls for: the casting
/// cycle while casting, the walking cycle otherwise. Which concrete sprite
/// frames make up either cycle is presentation data and stays outside the
/// simulation.
pub fn update_player_graphics(p: &mut Player)
    requires
        old(p).wf(),
    ensures
        *final(p) == (Player {
            animation: FrameAnimation {
                frames_len: (if old(p).state == PlayerState::Casting {
                    PLAYER_CAST_FRAMES
                } else {
                    PLAYER_FRAMES
                }),
                ..old(p).animation
            },
            ..*old(p)
        }),
        final(p).wf(),
{
    if p.state == PlayerState::Casting {
        p.animation.frames_len = PLAYER_CAST_FRAMES;
    } else {
        p.animation.frames_len = PLAYER_FRAMES;
    }
}

/// A fireball's damage at a given player level: the base plus five percent
/// of the base per level.
pub open spec fn spec_fireball_damage(level: int) -> int {
    FIREBALL_BASE_DAMAGE + FIREBALL_BASE_DAMAGE * level / 20
}

/// The five-percent-per-level bonus written out: each level adds exactly
/// 1750 milli-points to the base 35000.
pub proof fn lemma_fireball_damage_formula(level: int)
    requires
        0 <= level,
    ensures
        spec_fireball_damage(level) == 35_000 + 1750 * level,
{
    assert(FIREBALL_BASE_DAMAGE * level == 20 * (1750 * level)) by (nonlinear_arith);
    vstd::arithmetic::div_mod::lemma_div_multiples_vanish(1750 * level, 20);
}

/// The fireball one cast of the given player spawns: launched from the
/// player's position along the player's facing, with level-scaled damage
/// and a one in ten chance to deal double damage.
pub open spec fn spec_new_fireball(p: Player) -> Projectile {
    Projectile {
        position: p.position,
        facing: p.facing,
        speed: PROJECTILE_SPEED,
        damage: spec_fireball_damage(p.level.0 as int) as i64,
        crit_hit: CriticalHit { chance: 100, multiplier: 2000 },
        moving: false,
        ttl: DespawnTimer { remaining: PROJECTILE_TTL },
        alive: true,
    }
}

/// The cast action, edge-triggered on one discrete press. A press outside
/// the casting state spawns exactly one fireball and makes the player
/// casting; a press while already casting spawns nothing and changes
/// nothing.
pub fn throw_fireball(p: &mut Player, cast_pressed: bool, projectiles: &mut Vec<Projectile>)
    requires
        old(p).wf(),
    ensures
        cast_pressed && old(p).state != PlayerState::Casting ==> *final(p) == (Player {
            state: PlayerState::Casting,
            ..*old(p)
        }) && final(projectiles)@ == old(projectiles)@.push(spec_new_fireball(*old(p))),
        !(cast_pressed && old(p).state != PlayerState::Casting) ==> *final(p) == *old(p)
            && final(projectiles)@ == old(projectiles)@,
        final(p).wf(),
        cast_pressed && old(p).state != PlayerState::Casting ==> spec_new_fireball(*old(p)).wf(),
{
    if cast_pressed && p.state != PlayerState::Casting {
        p.state = PlayerState::Casting;
        let level: u32 = p.level.get();
        proof {
            assert(0 <= FIREBALL_BASE_DAMAGE * level as int <= 3_500_000_000_000)
                by (nonlinear_arith)
                requires
                    0 <= level as int <= 100_000_000,
            ;
            vstd::arithmetic::div_mod::lemma_div_pos_is_pos(
                FIREBALL_BASE_DAMAGE * level as int,
                20,
            );
            vstd::arithmetic::div_mod::lemma_div_is_ordered(
                FIREBALL_BASE_DAMAGE * level as int,
                3_500_000_000_000,
                20,
            );
        }
        let dmg: i64 = FIREBALL_BASE_DAMAGE + (FIREBALL_BASE_DAMAGE * level as i64) / 20;
        let fireball = Projectile {
            position: p.position,
            facing: p.facing,
            speed: PROJECTILE_SPEED,
            damage: dmg,
            crit_hit: CriticalHit::new(100, 2000),
            moving: false,
            ttl: DespawnTimer::new(PROJECTILE_TTL),
            alive: true,
        };
        projectiles.push(fireball);
    }
}

} // verus!
