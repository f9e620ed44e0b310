//! The whole simulation state and the fixed pipeline of one tick: player
//! input handling, enemy AI, projectile movement, collision, damage
//! resolution, and leveling, in that order. Each stage's events are drained
//! by the next stage within the same tick, never deferred.

use crate::abilities::{
    despawn_timed_projectiles, projectile_collision, projectile_mouvement,
    spec_collided_projectile, spec_collision_events, spec_projectile_position, Projectile,
};
use crate::damage::{
    apply_damage_system, spec_all_displays, spec_all_health_events, spec_apply_all,
    spec_defeat_count, DamageEvent, DisplayDamageNumbersEvent, CRIT_ROLL_SCALE,
};
use crate::enemy::{move_enemies, spec_enemy_tick, Enemy, EnemyDefeatedEvent};
use crate::entities::{DespawnTimer, FrameAnimation, HealthUpdateEvent, DT_LIMIT};
use crate::exp::{award_experience, spec_award_many, Experience, Level};
use crate::player::{
    animate_player, energy_system, player_mouvement, spec_animate_player, spec_energy_system,
    spec_new_fireball, spec_player_mouvement, update_player_graphics, InputState, Player,
    PlayerState, PLAYER_CAST_FRAMES, PLAYER_FRAMES,
};
use vstd::prelude::*;

verus! {

/// The simulation state: the one player, the enemy arena, and the
/// projectiles in flight. Arena slots are stable: a defeated enemy keeps
/// its slot with its `alive` flag cleared, so enemy indices in events stay
/// valid for the whole tick.
pub struct World {
    pub player: Player,
    pub enemies: Vec<Enemy>,
    pub projectiles: Vec<Projectile>,
}

/// What one tick hands to the presentation layer.
pub struct TickOutput {
    pub display_damage: Vec<DisplayDamageNumbersEvent>,
    pub health_updates: Vec<HealthUpdateEvent>,
    pub defeated: Vec<EnemyDefeatedEvent>,
}

impl World {
    pub open spec fn wf(self) -> bool {
        &&& self.player.wf()
        &&& forall|i: int| 0 <= i < self.enemies@.len() ==> #[trigger] self.enemies@[i].wf()
        &&& forall|i: int|
            0 <= i < self.projectiles@.len() ==> #[trigger] self.projectiles@[i].wf()
    }

    /// A world holding only the given player.
    pub fn new(player: Player) -> (w: World)
        requires
            player.wf(),
        ensures
            w.player == player,
            w.enemies@.len() == 0,
            w.projectiles@.len() == 0,
            w.wf(),
    {
        World { player, enemies: Vec::new(), projectiles: Vec::new() }
    }

    /// Adds an enemy to the arena; its index is the new arena length less
    /// one, and never changes afterwards.
    pub fn add_enemy(&mut self, e: Enemy)
        requires
            old(self).wf(),
            e.wf(),
        ensures
            final(self).player == old(self).player,
            final(self).projectiles == old(self).projectiles,
            final(self).enemies@ == old(self).enemies@.push(e),
            final(self).wf(),
    {
        self.enemies.push(e);
    }
}

/// The player after the input stages of one tick: movement, the cast
/// trigger, the animation cycle selection and clock, and the energy
/// economy.
pub open spec fn spec_player_stages(player: Player, input: InputState, dt: int) -> Player {
    let moved = spec_player_mouvement(player, input, dt);
    let cast = if input.cast && moved.state != PlayerState::Casting {
        Player { state: PlayerState::Casting, ..moved }
    } else {
        moved
    };
    let framed = Player {
        animation: FrameAnimation {
            frames_len: (if cast.state == PlayerState::Casting {
                PLAYER_CAST_FRAMES
            } else {
                PLAYER_FRAMES
            }),
            ..cast.animation
        },
        ..cast
    };
    let animated = spec_animate_player(framed, dt);
    spec_energy_system(animated, input.boost, dt)
}

/// The projectiles in flight after the cast stage of one tick.
pub open spec fn spec_projectiles_after_cast(
    projs: Seq<Projectile>,
    player: Player,
    input: InputState,
    dt: int,
) -> Seq<Projectile> {
    let moved = spec_player_mouvement(player, input, dt);
    if input.cast && moved.state != PlayerState::Casting {
        projs.push(spec_new_fireball(moved))
    } else {
        projs
    }
}

/// One tick of the whole pipeline, given the crit rolls the damage stage
/// consumed: relates the old world to the new world and the tick's output
/// events, stage by stage in the pipeline's fixed order.
pub open spec fn spec_world_tick(
    w0: World,
    input: InputState,
    dt: int,
    rolls: Seq<u32>,
    w1: World,
    out: TickOutput,
) -> bool {
    let staged = spec_player_stages(w0.player, input, dt);
    let projs1 = spec_projectiles_after_cast(w0.projectiles@, w0.player, input, dt);
    let enemies1 = Seq::new(
        w0.enemies@.len(),
        |i: int|
            if w0.enemies@[i].alive {
                spec_enemy_tick(w0.enemies@[i], staged.position)
            } else {
                w0.enemies@[i]
            },
    );
    let projs2 = Seq::new(
        projs1.len(),
        |i: int|
            if projs1[i].alive {
                Projectile { position: spec_projectile_position(projs1[i], dt), ..projs1[i] }
            } else {
                projs1[i]
            },
    );
    let events = spec_collision_events(projs2, enemies1);
    let projs3 = Seq::new(projs2.len(), |i: int| spec_collided_projectile(projs2[i], enemies1));
    let projs4 = Seq::new(
        projs3.len(),
        |i: int|
            if projs3[i].alive {
                Projectile {
                    ttl: DespawnTimer { remaining: (projs3[i].ttl.remaining - dt) as i64 },
                    alive: projs3[i].ttl.remaining - dt > 0,
                    ..projs3[i]
                }
            } else {
                projs3[i]
            },
    );
    let enemies2 = spec_apply_all(enemies1, events, rolls);
    let defeats = spec_defeat_count(enemies1, events, rolls);
    let awarded = spec_award_many(staged.level.0 as int, staged.experience.0 as int, defeats);
    &&& rolls.len() == events.len()
    &&& forall|i: int| 0 <= i < rolls.len() ==> #[trigger] rolls[i] < CRIT_ROLL_SCALE
    &&& w1.player == (Player {
        level: Level(awarded.0 as u32),
        experience: Experience(awarded.1 as i64),
        ..staged
    })
    &&& w1.enemies@ == enemies2
    &&& w1.projectiles@ == projs4
    &&& out.display_damage@ == spec_all_displays(enemies1, events, rolls)
    &&& out.health_updates@ == spec_all_health_events(enemies1, events, rolls)
    &&& out.defeated@.len() == defeats
}

impl World {
    /// Runs one simulation tick: the player stages, then the enemy state
    /// machines, then projectile movement, collision and expiry (collision
    /// takes priority over expiry within the same tick), then damage
    /// resolution, then leveling. The crit rolls drawn by the damage stage
    /// are existentially bound: the tick's outcome is pinned for whatever
    /// values came back.
    pub fn tick(&mut self, input: &InputState, dt: u32) -> (out: TickOutput)
        requires
            old(self).wf(),
            dt <= DT_LIMIT,
        ensures
            final(self).wf(),
            exists|rolls: Seq<u32>|
                spec_world_tick(*old(self), *input, dt as int, rolls, *final(self), out),
    {
        let ghost w0 = *self;
        // player stages
        player_mouvement(&mut self.player, input, dt);
        crate::player::throw_fireball(&mut self.player, input.cast, &mut self.projectiles);
        update_player_graphics(&mut self.player);
        animate_player(&mut self.player, dt);
        energy_system(&mut self.player, input.boost, dt);
        proof {
            assert(self.player == spec_player_stages(w0.player, *input, dt as int));
            assert(self.projectiles@ == spec_projectiles_after_cast(
                w0.projectiles@,
                w0.player,
                *input,
                dt as int,
            ));
        }
        // enemy AI
        let player_position = self.player.position;
        move_enemies(&mut self.enemies, player_position);
        let ghost enemies1 = self.enemies@;
        let ghost projs1 = self.projectiles@;
        // projectile advance, collision, expiry
        projectile_mouvement(&mut self.projectiles, dt);
        let ghost projs2 = self.projectiles@;
        let mut ev_damage: Vec<DamageEvent> = Vec::new();
        projectile_collision(&mut self.projectiles, &self.enemies, &mut ev_damage);
        let ghost projs3 = self.projectiles@;
        despawn_timed_projectiles(&mut self.projectiles, dt);
        // damage resolution
        let mut display_damage: Vec<DisplayDamageNumbersEvent> = Vec::new();
        let mut health_updates: Vec<HealthUpdateEvent> = Vec::new();
        let mut defeated: Vec<EnemyDefeatedEvent> = Vec::new();
        let ghost display0 = display_damage@;
        let ghost health0 = health_updates@;
        let ghost defeated0 = defeated@;
        apply_damage_system(
            &mut self.enemies,
            &ev_damage,
            &mut display_damage,
            &mut health_updates,
            &mut defeated,
        );
        // leveling
        award_experience(&mut self.player.level, &mut self.player.experience, &defeated);
        let out = TickOutput { display_damage, health_updates, defeated };
        proof {
            let staged = spec_player_stages(w0.player, *input, dt as int);
            assert(enemies1 =~= Seq::new(
                w0.enemies@.len(),
                |i: int|
                    if w0.enemies@[i].alive {
                        spec_enemy_tick(w0.enemies@[i], staged.position)
                    } else {
                        w0.enemies@[i]
                    },
            ));
            assert(projs2 =~= Seq::new(
                projs1.len(),
                |i: int|
                    if projs1[i].alive {
                        Projectile {
                            position: spec_projectile_position(projs1[i], dt as int),
                            ..projs1[i]
                        }
                    } else {
                        projs1[i]
                    },
            ));
            assert(projs3 =~= Seq::new(
                projs2.len(),
                |i: int| spec_collided_projectile(projs2[i], enemies1),
            ));
            assert(self.projectiles@ =~= Seq::new(
                projs3.len(),
                |i: int|
                    if projs3[i].alive {
                        Projectile {
                            ttl: DespawnTimer {
                                remaining: (projs3[i].ttl.remaining - dt) as i64,
                            },
                            alive: projs3[i].ttl.remaining - dt > 0,
                            ..projs3[i]
                        }
                    } else {
                        projs3[i]
                    },
            ));
            let rolls = choose|rolls: Seq<u32>|
                {
                    &&& rolls.len() == ev_damage@.len()
                    &&& (forall|i: int|
                        0 <= i < rolls.len() ==> #[trigger] rolls[i] < CRIT_ROLL_SCALE)
                    &&& self.enemies@ == spec_apply_all(enemies1, ev_damage@, rolls)
                    &&& display_damage@ == display0 + spec_all_displays(
                        enemies1,
                        ev_damage@,
                        rolls,
                    )
                    &&& health_updates@ == health0 + spec_all_health_events(
                        enemies1,
                        ev_damage@,
                        rolls,
                    )
                    &&& defeated@.len() == defeated0.len() + spec_defeat_count(
                        enemies1,
                        ev_damage@,
                        rolls,
                    )
                };
            assert(display0 + spec_all_displays(enemies1, ev_damage@, rolls) =~= spec_all_displays(
                enemies1,
                ev_damage@,
                rolls,
            ));
            assert(health0 + spec_all_health_events(enemies1, ev_damage@, rolls)
                =~= spec_all_health_events(enemies1, ev_damage@, rolls));
            assert(spec_world_tick(w0, *input, dt as int, rolls, *self, out));
        }
        out
    }
}

} // verus!
