//! The damage resolution engine: turns a damage intent into a crit roll, a
//! health mutation, presentation events and, at most once per intent, a
//! defeat event.

use crate::enemy::{enemy_at_mut, Enemy, EnemyDefeatedEvent};
use crate::entities::{Health, HealthUpdateEvent, DAMAGE_LIMIT};
use crate::geometry::Vec3;
use vstd::prelude::*;

verus! {

/// Scale of crit probabilities: a chance is given in thousandths of one.
pub const CRIT_ROLL_SCALE: u32 = 1000;

/// Upper bound on an intent's base damage, in milli-points.
pub const BASE_DAMAGE_LIMIT: i64 = 1_000_000_000_000;

/// The crit multiplier standing for exactly one, in thousandths.
pub const MULTIPLIER_ONE: i64 = 1000;

/// Upper bound on a crit multiplier, in thousandths.
pub const MULTIPLIER_LIMIT: i64 = 1_000_000;

/// Defines the damage of an entity, in milli-points.
#[derive(Clone, Copy, Debug, PartialEq, Eq, Structural)]
pub struct Damage(pub i64);

impl Damage {
    pub fn new(damage: i64) -> (d: Damage)
        ensures
            d.0 == damage,
    {
        Damage(damage)
    }
}

/// Defines a critical hit chance (thousandths of one) and multiplier
/// (thousandths) of an entity.
#[derive(Clone, Copy, Debug, PartialEq, Eq, Structural)]
pub struct CriticalHit {
    pub chance: u32,
    pub multiplier: i64,
}

impl CriticalHit {
    pub open spec fn wf(self) -> bool {
        &&& self.chance <= CRIT_ROLL_SCALE
        &&& MULTIPLIER_ONE <= self.multiplier <= MULTIPLIER_LIMIT
    }

    pub fn new(chance: u32, multiplier: i64) -> (c: CriticalHit)
        requires
            chance <= CRIT_ROLL_SCALE,
            MULTIPLIER_ONE <= multiplier <= MULTIPLIER_LIMIT,
        ensures
            c == (CriticalHit { chance, multiplier }),
            c.wf(),
    {
        CriticalHit { chance, multiplier }
    }
}

/// A damage intent against one enemy, consumed exactly once by resolution.
#[derive(Clone, Copy, Debug, PartialEq, Eq, Structural)]
pub struct DamageEvent {
    pub damage: i64,
    pub crit_hit: CriticalHit,
    pub entity: usize,
}

impl DamageEvent {
    pub open spec fn wf(self) -> bool {
        &&& 0 <= self.damage <= BASE_DAMAGE_LIMIT
        &&& self.crit_hit.wf()
    }
}

/// Tells the presentation layer to show a damage number at a position.
#[derive(Clone, Copy, Debug, PartialEq, Eq, Structural)]
pub struct DisplayDamageNumbersEvent {
    pub damage: i64,
    pub position: Vec3,
    pub is_crit: bool,
}

/// Relies on rand::random for the raw crit draw. Nothing is assumed of the
/// value that comes back: every caller must cope with every value.
pub assume_specification<T>[ rand::random::<T> ]() -> (r: T)
    where rand::distributions::Standard: rand::distributions::Distribution<T>;

/// Draws one crit roll, in thousandths of one.
pub fn draw_crit_roll() -> (roll: u32)
    ensures
        roll < CRIT_ROLL_SCALE,
{
    let raw: u32 = rand::random::<u32>();
    raw % CRIT_ROLL_SCALE
}

/// The damage an intent resolves to under a given roll: scaled by the
/// multiplier when a positive chance beats the roll, unchanged otherwise.
pub open spec fn spec_resolve_crit(damage: int, crit: CriticalHit, roll: u32) -> int {
    if crit.chance > 0 && (roll as int) < crit.chance as int {
        damage * crit.multiplier / (MULTIPLIER_ONE as int)
    } else {
        damage
    }
}

/// With no crit chance the resolved damage always equals the base damage,
/// whatever the roll.
pub proof fn lemma_no_crit_when_chance_zero(damage: int, crit: CriticalHit, roll: u32)
    requires
        crit.chance == 0,
    ensures
        spec_resolve_crit(damage, crit, roll) == damage,
{
}

pub fn resolve_crit(damage: i64, crit: CriticalHit, roll: u32) -> (r: i64)
    requires
        0 <= damage <= BASE_DAMAGE_LIMIT,
        crit.wf(),
        roll < CRIT_ROLL_SCALE,
    ensures
        r == spec_resolve_crit(damage as int, crit, roll),
        damage <= r <= DAMAGE_LIMIT,
        crit.chance == 0 ==> r == damage,
{
    if crit.chance > 0 && roll < crit.chance {
        proof {
            assert(damage as int * crit.multiplier as int <= 1_000_000_000_000
                * 1_000_000) by (nonlinear_arith)
                requires
                    0 <= damage as int <= 1_000_000_000_000,
                    0 <= crit.multiplier as int <= 1_000_000,
            ;
            assert(damage as int * 1000 <= damage as int * crit.multiplier as int)
                by (nonlinear_arith)
                requires
                    0 <= damage as int,
                    1000 <= crit.multiplier as int,
            ;
            vstd::arithmetic::div_mod::lemma_div_is_ordered(
                damage as int * 1000,
                damage as int * crit.multiplier as int,
                1000,
            );
            vstd::arithmetic::div_mod::lemma_div_is_ordered(
                damage as int * crit.multiplier as int,
                1_000_000_000_000int * 1_000_000,
                1000,
            );
            vstd::arithmetic::div_mod::lemma_div_multiples_vanish(damage as int, 1000);
        }
        (damage * crit.multiplier) / MULTIPLIER_ONE
    } else {
        damage
    }
}

/// Whether an intent still has a living target in the arena.
pub open spec fn spec_intent_hits(enemies: Seq<Enemy>, ev: DamageEvent) -> bool {
    ev.entity < enemies.len() && enemies[ev.entity as int].alive
}

/// The target enemy after one intent lands on it: health reduced by the
/// resolved damage, removed from play when the new health is not positive.
pub open spec fn spec_struck_enemy(e: Enemy, ev: DamageEvent, roll: u32) -> Enemy {
    let fd = spec_resolve_crit(ev.damage as int, ev.crit_hit, roll);
    Enemy {
        health: Health { current: (e.health.current - fd) as i64, max: e.health.max },
        alive: e.alive && e.health.current - fd > 0,
        ..e
    }
}

/// The arena after one intent: unchanged when the target is gone.
pub open spec fn spec_apply_intent(enemies: Seq<Enemy>, ev: DamageEvent, roll: u32) -> Seq<
    Enemy,
> {
    if spec_intent_hits(enemies, ev) {
        enemies.update(ev.entity as int, spec_struck_enemy(enemies[ev.entity as int], ev, roll))
    } else {
        enemies
    }
}

/// The display event one intent emits, if its target is still there. The
/// crit flag reports an actually changed number, not the dice roll itself.
pub open spec fn spec_display_event(enemies: Seq<Enemy>, ev: DamageEvent, roll: u32) -> Option<
    DisplayDamageNumbersEvent,
> {
    if spec_intent_hits(enemies, ev) {
        let fd = spec_resolve_crit(ev.damage as int, ev.crit_hit, roll);
        Some(
            DisplayDamageNumbersEvent {
                damage: fd as i64,
                position: enemies[ev.entity as int].position,
                is_crit: fd != ev.damage,
            },
        )
    } else {
        None
    }
}

/// The health-changed event one intent emits, if its target is still there.
pub open spec fn spec_health_event(enemies: Seq<Enemy>, ev: DamageEvent, roll: u32) -> Option<
    HealthUpdateEvent,
> {
    if spec_intent_hits(enemies, ev) {
        let fd = spec_resolve_crit(ev.damage as int, ev.crit_hit, roll);
        Some(
            HealthUpdateEvent {
                entity: ev.entity,
                total_health: enemies[ev.entity as int].health.max,
                new_health: (enemies[ev.entity as int].health.current - fd) as i64,
            },
        )
    } else {
        None
    }
}

/// Whether one intent defeats its target this tick.
pub open spec fn spec_intent_defeats(enemies: Seq<Enemy>, ev: DamageEvent, roll: u32) -> bool {
    spec_intent_hits(enemies, ev) && enemies[ev.entity as int].health.current
        - spec_resolve_crit(ev.damage as int, ev.crit_hit, roll) <= 0
}

/// An optional value as a zero- or one-element sequence.
pub open spec fn opt_seq<T>(o: Option<T>) -> Seq<T> {
    match o {
        Some(v) => seq![v],
        None => Seq::empty(),
    }
}

/// Resolves one damage intent against the arena under a given roll:
/// mutates the target's health, emits the display and health-changed
/// events, and on a kill emits exactly one defeat event and removes the
/// target. An intent whose target is already gone is silently dropped.
pub fn apply_intent(
    enemies: &mut Vec<Enemy>,
    ev: DamageEvent,
    roll: u32,
    display: &mut Vec<DisplayDamageNumbersEvent>,
    health_updates: &mut Vec<HealthUpdateEvent>,
    defeated: &mut Vec<EnemyDefeatedEvent>,
)
    requires
        forall|i: int| 0 <= i < old(enemies)@.len() ==> #[trigger] old(enemies)@[i].wf(),
        ev.wf(),
        roll < CRIT_ROLL_SCALE,
    ensures
        final(enemies)@ == spec_apply_intent(old(enemies)@, ev, roll),
        final(display)@ == old(display)@ + opt_seq(spec_display_event(old(enemies)@, ev, roll)),
        final(health_updates)@ == old(health_updates)@ + opt_seq(
            spec_health_event(old(enemies)@, ev, roll),
        ),
        final(defeated)@ == (if spec_intent_defeats(old(enemies)@, ev, roll) {
            old(defeated)@.push(EnemyDefeatedEvent)
        } else {
            old(defeated)@
        }),
        forall|i: int| 0 <= i < final(enemies)@.len() ==> #[trigger] final(enemies)@[i].wf(),
{
    let ghost enemies0 = enemies@;
    if ev.entity < enemies.len() {
        proof {
            assert(enemies@[ev.entity as int].wf());
        }
        let e = enemy_at_mut(enemies, ev.entity);
        if e.alive {
            let final_damage = resolve_crit(ev.damage, ev.crit_hit, roll);
            let total_health = e.health.max();
            let position = e.position;
            e.health.update(final_damage);
            let new_health = e.health.current();
            if new_health <= 0 {
                e.alive = false;
            }
            display.push(
                DisplayDamageNumbersEvent {
                    damage: final_damage,
                    position,
                    is_crit: final_damage != ev.damage,
                },
            );
            health_updates.push(
                HealthUpdateEvent { entity: ev.entity, total_health, new_health },
            );
            if new_health <= 0 {
                defeated.push(EnemyDefeatedEvent);
            }
            proof {
                assert(enemies@ =~= spec_apply_intent(enemies0, ev, roll));
                assert(display@ =~= old(display)@ + opt_seq(
                    spec_display_event(enemies0, ev, roll),
                ));
                assert(health_updates@ =~= old(health_updates)@ + opt_seq(
                    spec_health_event(enemies0, ev, roll),
                ));
            }
        } else {
            proof {
                assert(enemies@ =~= spec_apply_intent(enemies0, ev, roll));
                assert(display@ =~= old(display)@ + opt_seq(
                    spec_display_event(enemies0, ev, roll),
                ));
                assert(health_updates@ =~= old(health_updates)@ + opt_seq(
                    spec_health_event(enemies0, ev, roll),
                ));
            }
        }
    } else {
        proof {
            assert(display@ =~= old(display)@ + opt_seq(spec_display_event(enemies0, ev, roll)));
            assert(health_updates@ =~= old(health_updates)@ + opt_seq(
                spec_health_event(enemies0, ev, roll),
            ));
        }
    }
}

/// The arena after a queue of intents, resolved in order under the given
/// rolls.
pub open spec fn spec_apply_all(
    enemies: Seq<Enemy>,
    events: Seq<DamageEvent>,
    rolls: Seq<u32>,
) -> Seq<Enemy>
    decreases events.len(),
{
    if events.len() == 0 {
        enemies
    } else {
        spec_apply_intent(
            spec_apply_all(enemies, events.drop_last(), rolls.drop_last()),
            events.last(),
            rolls.last(),
        )
    }
}

/// The display events a queue of intents emits, in order.
pub open spec fn spec_all_displays(
    enemies: Seq<Enemy>,
    events: Seq<DamageEvent>,
    rolls: Seq<u32>,
) -> Seq<DisplayDamageNumbersEvent>
    decreases events.len(),
{
    if events.len() == 0 {
        Seq::empty()
    } else {
        spec_all_displays(enemies, events.drop_last(), rolls.drop_last()) + opt_seq(
            spec_display_event(
                spec_apply_all(enemies, events.drop_last(), rolls.drop_last()),
                events.last(),
                rolls.last(),
            ),
        )
    }
}

/// The health-changed events a queue of intents emits, in order.
pub open spec fn spec_all_health_events(
    enemies: Seq<Enemy>,
    events: Seq<DamageEvent>,
    rolls: Seq<u32>,
) -> Seq<HealthUpdateEvent>
    decreases events.len(),
{
    if events.len() == 0 {
        Seq::empty()
    } else {
        spec_all_health_events(enemies, events.drop_last(), rolls.drop_last()) + opt_seq(
            spec_health_event(
                spec_apply_all(enemies, events.drop_last(), rolls.drop_last()),
                events.last(),
                rolls.last(),
            ),
        )
    }
}

/// How many defeats a queue of intents causes: at most one per intent, and
/// never more than one for the same enemy, since a defeated enemy is gone
/// for every later intent.
pub open spec fn spec_defeat_count(
    enemies: Seq<Enemy>,
    events: Seq<DamageEvent>,
    rolls: Seq<u32>,
) -> int
    decreases events.len(),
{
    if events.len() == 0 {
        0
    } else {
        spec_defeat_count(enemies, events.drop_last(), rolls.drop_last()) + (
        if spec_intent_defeats(
            spec_apply_all(enemies, events.drop_last(), rolls.drop_last()),
            events.last(),
            rolls.last(),
        ) {
            1int
        } else {
            0int
        })
    }
}

/// Resolves a queue of damage intents in order, under one given roll per
/// intent.
pub fn apply_damage_with_rolls(
    enemies: &mut Vec<Enemy>,
    events: &Vec<DamageEvent>,
    rolls: &Vec<u32>,
    display: &mut Vec<DisplayDamageNumbersEvent>,
    health_updates: &mut Vec<HealthUpdateEvent>,
    defeated: &mut Vec<EnemyDefeatedEvent>,
)
    requires
        forall|i: int| 0 <= i < old(enemies)@.len() ==> #[trigger] old(enemies)@[i].wf(),
        forall|i: int| 0 <= i < events@.len() ==> #[trigger] events@[i].wf(),
        rolls@.len() == events@.len(),
        forall|i: int| 0 <= i < rolls@.len() ==> #[trigger] rolls@[i] < CRIT_ROLL_SCALE,
    ensures
        final(enemies)@ == spec_apply_all(old(enemies)@, events@, rolls@),
        final(display)@ == old(display)@ + spec_all_displays(old(enemies)@, events@, rolls@),
        final(health_updates)@ == old(health_updates)@ + spec_all_health_events(
            old(enemies)@,
            events@,
            rolls@,
        ),
        final(defeated)@.len() == old(defeated)@.len() + spec_defeat_count(
            old(enemies)@,
            events@,
            rolls@,
        ),
        forall|i: int| 0 <= i < final(enemies)@.len() ==> #[trigger] final(enemies)@[i].wf(),
{
    let n: usize = events.len();
    let mut i: usize = 0;
    while i < n
        invariant
            0 <= i <= n,
            n == events@.len(),
            rolls@.len() == events@.len(),
            forall|j: int| 0 <= j < events@.len() ==> #[trigger] events@[j].wf(),
            forall|j: int| 0 <= j < rolls@.len() ==> #[trigger] rolls@[j] < CRIT_ROLL_SCALE,
            enemies@ == spec_apply_all(old(enemies)@, events@.take(i as int), rolls@.take(i as int)),
            display@ == old(display)@ + spec_all_displays(
                old(enemies)@,
                events@.take(i as int),
                rolls@.take(i as int),
            ),
            health_updates@ == old(health_updates)@ + spec_all_health_events(
                old(enemies)@,
                events@.take(i as int),
                rolls@.take(i as int),
            ),
            defeated@.len() == old(defeated)@.len() + spec_defeat_count(
                old(enemies)@,
                events@.take(i as int),
                rolls@.take(i as int),
            ),
            forall|j: int| 0 <= j < enemies@.len() ==> #[trigger] enemies@[j].wf(),
        decreases n - i,
    {
        proof {
            assert(events@.take(i + 1).drop_last() =~= events@.take(i as int));
            assert(rolls@.take(i + 1).drop_last() =~= rolls@.take(i as int));
            assert(events@.take(i + 1).last() == events@[i as int]);
            assert(rolls@.take(i + 1).last() == rolls@[i as int]);
        }
        apply_intent(enemies, events[i], rolls[i], display, health_updates, defeated);
        i = i + 1;
    }
    proof {
        assert(events@.take(n as int) =~= events@);
        assert(rolls@.take(n as int) =~= rolls@);
    }
}

/// Resolves a queue of damage intents in order, drawing one crit roll per
/// intent with a positive crit chance. What the engine does under every
/// possible sequence of rolls is pinned by `apply_damage_with_rolls`; this
/// entry point guarantees that some such sequence governed the outcome.
pub fn apply_damage_system(
    enemies: &mut Vec<Enemy>,
    events: &Vec<DamageEvent>,
    display: &mut Vec<DisplayDamageNumbersEvent>,
    health_updates: &mut Vec<HealthUpdateEvent>,
    defeated: &mut Vec<EnemyDefeatedEvent>,
)
    requires
        forall|i: int| 0 <= i < old(enemies)@.len() ==> #[trigger] old(enemies)@[i].wf(),
        forall|i: int| 0 <= i < events@.len() ==> #[trigger] events@[i].wf(),
    ensures
        exists|rolls: Seq<u32>|
            {
                &&& rolls.len() == events@.len()
                &&& (forall|i: int| 0 <= i < rolls.len() ==> #[trigger] rolls[i] < CRIT_ROLL_SCALE)
                &&& final(enemies)@ == spec_apply_all(old(enemies)@, events@, rolls)
                &&& final(display)@ == old(display)@ + spec_all_displays(
                    old(enemies)@,
                    events@,
                    rolls,
                )
                &&& final(health_updates)@ == old(health_updates)@ + spec_all_health_events(
                    old(enemies)@,
                    events@,
                    rolls,
                )
                &&& final(defeated)@.len() == old(defeated)@.len() + spec_defeat_count(
                    old(enemies)@,
                    events@,
                    rolls,
                )
            },
        forall|i: int| 0 <= i < final(enemies)@.len() ==> #[trigger] final(enemies)@[i].wf(),
{
    let n: usize = events.len();
    let mut rolls: Vec<u32> = Vec::new();
    let mut i: usize = 0;
    while i < n
        invariant
            0 <= i <= n,
            n == events@.len(),
            rolls@.len() == i,
            forall|j: int| 0 <= j < rolls@.len() ==> #[trigger] rolls@[j] < CRIT_ROLL_SCALE,
        decreases n - i,
    {
        let ev = events[i];
        if ev.crit_hit.chance > 0 {
            let roll = draw_crit_roll();
            rolls.push(roll);
        } else {
            rolls.push(0);
        }
        i = i + 1;
    }
    apply_damage_with_rolls(enemies, events, &rolls, display, health_updates, defeated);
    proof {
        let witness = rolls@;
        assert({
            &&& witness.len() == events@.len()
            &&& (forall|j: int| 0 <= j < witness.len() ==> #[trigger] witness[j] < CRIT_ROLL_SCALE)
            &&& enemies@ == spec_apply_all(old(enemies)@, events@, witness)
            &&& display@ == old(display)@ + spec_all_displays(old(enemies)@, events@, witness)
            &&& health_updates@ == old(health_updates)@ + spec_all_health_events(
                old(enemies)@,
                events@,
                witness,
            )
            &&& defeated@.len() == old(defeated)@.len() + spec_defeat_count(
                old(enemies)@,
                events@,
                witness,
            )
        });
    }
}

} // verus!
