//! Shared combatant state: facing, health, frame animation and despawn timers.

use crate::geometry::Vec3;
use vstd::prelude::*;

verus! {

/// Upper bound on a tick's duration, in milliseconds.
pub const DT_LIMIT: u32 = 1_000_000;

/// Upper bound on a health pool, in milli-points.
pub const HEALTH_LIMIT: i64 = 1_000_000_000;

/// Upper bound on a single applied damage amount, in milli-points; large
/// enough for the strongest base damage under the largest crit multiplier.
pub const DAMAGE_LIMIT: i64 = 1_000_000_000_000_000;

/// One of the four cardinal orientations a combatant or projectile can face.
#[derive(Clone, Copy, Debug, PartialEq, Eq, Structural)]
pub enum Facing {
    Up,
    Down,
    Left,
    Right,
}

pub open spec fn spec_abs(v: int) -> int {
    if v < 0 {
        -v
    } else {
        v
    }
}

/// The facing a movement vector derives: the axis of greater magnitude wins,
/// ties go to the vertical axis, and the sign on the winning axis picks the
/// direction.
pub open spec fn spec_facing_direction(direction: Vec3) -> Facing {
    if spec_abs(direction.x as int) > spec_abs(direction.y as int) {
        if direction.x > 0 {
            Facing::Right
        } else {
            Facing::Left
        }
    } else if direction.y > 0 {
        Facing::Up
    } else {
        Facing::Down
    }
}

/// Returns the facing direction based on the given vector.
pub fn get_facing_direction(direction: Vec3) -> (facing: Facing)
    requires
        direction.x > i64::MIN,
        direction.y > i64::MIN,
    ensures
        facing == spec_facing_direction(direction),
        spec_abs(direction.x as int) > spec_abs(direction.y as int) ==> (facing == Facing::Right
            <==> direction.x > 0),
        spec_abs(direction.x as int) > spec_abs(direction.y as int) ==> (facing == Facing::Left
            <==> direction.x <= 0),
        spec_abs(direction.x as int) <= spec_abs(direction.y as int) ==> (facing == Facing::Up
            <==> direction.y > 0),
        spec_abs(direction.x as int) <= spec_abs(direction.y as int) ==> (facing == Facing::Down
            <==> direction.y <= 0),
{
    let ax: i64 = if direction.x < 0 {
        -direction.x
    } else {
        direction.x
    };
    let ay: i64 = if direction.y < 0 {
        -direction.y
    } else {
        direction.y
    };
    if ax > ay {
        if direction.x > 0 {
            Facing::Right
        } else {
            Facing::Left
        }
    } else if direction.y > 0 {
        Facing::Up
    } else {
        Facing::Down
    }
}

/// A combatant's health pool, in milli-points. `current` may go below zero
/// transiently, between a damage application and the defeat handling.
#[derive(Clone, Copy, Debug, PartialEq, Eq, Structural)]
pub struct Health {
    pub current: i64,
    pub max: i64,
}

impl Health {
    pub open spec fn wf(self) -> bool {
        &&& 0 < self.max <= HEALTH_LIMIT
        &&& -2 * DAMAGE_LIMIT <= self.current <= self.max
    }

    pub fn new(max: i64) -> (h: Health)
        requires
            0 < max <= HEALTH_LIMIT,
        ensures
            h == (Health { current: max, max }),
            h.wf(),
    {
        Health { current: max, max }
    }

    pub fn current(&self) -> (c: i64)
        ensures
            c == self.current,
    {
        self.current
    }

    pub fn max(&self) -> (m: i64)
        ensures
            m == self.max,
    {
        self.max
    }

    /// Subtracts `damage` from the current health, without clamping at zero.
    pub fn update(&mut self, damage: i64)
        requires
            0 <= damage <= DAMAGE_LIMIT,
            -DAMAGE_LIMIT <= old(self).current,
        ensures
            final(self).current == old(self).current - damage,
            final(self).max == old(self).max,
    {
        self.current = self.current - damage;
    }
}

/// A countdown, in milliseconds, after which an entity is removed.
#[derive(Clone, Copy, Debug, PartialEq, Eq, Structural)]
pub struct DespawnTimer {
    pub remaining: i64,
}

impl DespawnTimer {
    pub fn new(remaining: i64) -> (t: DespawnTimer)
        ensures
            t == (DespawnTimer { remaining }),
    {
        DespawnTimer { remaining }
    }

    /// Advances the countdown by `dt` milliseconds; reports whether it has
    /// run out.
    pub fn tick(&mut self, dt: u32) -> (finished: bool)
        requires
            dt <= DT_LIMIT,
            old(self).remaining >= -(DT_LIMIT as i64),
        ensures
            final(self).remaining == old(self).remaining - dt,
            finished == (final(self).remaining <= 0),
    {
        self.remaining = self.remaining - dt as i64;
        self.remaining <= 0
    }
}

/// The animation clock of a combatant: which frame of the current cycle is
/// shown, how many frames the cycle has, and how far into the current frame
/// the clock is. The concrete sprite indices are presentation data and stay
/// outside the simulation.
#[derive(Clone, Copy, Debug, PartialEq, Eq, Structural)]
pub struct FrameAnimation {
    pub current_frame: usize,
    pub frames_len: usize,
    pub acc_ms: u32,
    pub period_ms: u32,
}

impl FrameAnimation {
    pub open spec fn wf(self) -> bool {
        &&& 0 < self.frames_len <= 1000
        &&& self.current_frame <= 1000
        &&& 0 < self.period_ms <= DT_LIMIT
        &&& self.acc_ms < self.period_ms
    }

    pub fn new(frames_len: usize, period_ms: u32) -> (a: FrameAnimation)
        requires
            0 < frames_len <= 1000,
            0 < period_ms <= DT_LIMIT,
        ensures
            a == (FrameAnimation { current_frame: 0, frames_len, acc_ms: 0, period_ms }),
            a.wf(),
    {
        FrameAnimation { current_frame: 0, frames_len, acc_ms: 0, period_ms }
    }

    /// Advances the clock by `dt` milliseconds; reports whether the current
    /// frame's period elapsed during this tick. The clock may start at or
    /// past its period (after the period was shortened): the accumulator
    /// still lands strictly inside the period.
    pub fn tick_clock(&mut self, dt: u32) -> (finished: bool)
        requires
            0 < old(self).period_ms <= DT_LIMIT,
            old(self).acc_ms <= DT_LIMIT,
            dt <= DT_LIMIT,
        ensures
            final(self).acc_ms < final(self).period_ms,
            finished == (old(self).acc_ms + dt >= old(self).period_ms),
            final(self).acc_ms == (old(self).acc_ms + dt) % (old(self).period_ms as int),
            final(self).current_frame == old(self).current_frame,
            final(self).frames_len == old(self).frames_len,
            final(self).period_ms == old(self).period_ms,
    {
        let total: u32 = self.acc_ms + dt;
        let period: u32 = self.period_ms;
        if total >= period {
            self.acc_ms = total % period;
            true
        } else {
            proof {
                vstd::arithmetic::div_mod::lemma_small_mod(total as nat, period as nat);
            }
            self.acc_ms = total;
            false
        }
    }
}

/// Notifies the presentation layer that a combatant's health changed.
#[derive(Clone, Copy, Debug, PartialEq, Eq, Structural)]
pub struct HealthUpdateEvent {
    pub entity: usize,
    pub total_health: i64,
    pub new_health: i64,
}

} // verus!
