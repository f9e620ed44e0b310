//! The experience and leveling engine: awards a fixed amount per defeated
//! enemy, and levels the player up when the accumulated experience crosses
//! the current level's threshold, resetting the counter to exactly zero.

use crate::enemy::EnemyDefeatedEvent;
use vstd::prelude::*;

verus! {

/// Base of the level-up curve, in milli-points of experience.
pub const BASE_EXP: i64 = 100_000;

/// Per-level factor of the level-up curve, in thousandths.
pub const EXP_MULTIPLIER: i64 = 1_500;

/// Experience awarded per defeated enemy, in milli-points: a flat amount,
/// independent of the defeated enemy's level.
pub const XP_AWARD: i64 = 25_000;

/// Largest level the engine reaches; at this level defeats still reset the
/// experience counter at each crossing, but the level no longer grows, so
/// that every damage and threshold formula stays in exact bounds.
pub const LEVEL_LIMIT: u32 = 100_000_000;

/// The player's level.
#[derive(Clone, Copy, Debug, PartialEq, Eq, Structural)]
pub struct Level(pub u32);

impl Level {
    pub fn new(level: u32) -> (l: Level)
        ensures
            l.0 == level,
    {
        Level(level)
    }

    pub fn update(&mut self, level: u32)
        ensures
            final(self).0 == level,
    {
        self.0 = level;
    }

    pub fn get(&self) -> (l: u32)
        ensures
            l == self.0,
    {
        self.0
    }
}

/// Experience threshold for leaving the given level, in milli-points.
pub open spec fn spec_xp_to_next_level(level: int) -> int {
    150_000 * level
}

/// The player's accumulated experience within the current level, in
/// milli-points.
#[derive(Clone, Copy, Debug, PartialEq, Eq, Structural)]
pub struct Experience(pub i64);

impl Experience {
    pub fn new(current_xp: i64) -> (x: Experience)
        ensures
            x.0 == current_xp,
    {
        Experience(current_xp)
    }

    pub fn current(&self) -> (c: i64)
        ensures
            c == self.0,
    {
        self.0
    }

    /// The experience needed to leave `level`: the base of the curve scaled
    /// by the per-level factor.
    pub fn xp_to_next_level(&self, level: u32) -> (r: i64)
        requires
            level <= LEVEL_LIMIT,
        ensures
            r == spec_xp_to_next_level(level as int),
    {
        proof {
            assert(BASE_EXP * (EXP_MULTIPLIER * level as int) / 1000 == 150_000 * level as int
                && BASE_EXP * (EXP_MULTIPLIER * level as int) <= 150_000_000_000_000_000)
                by (nonlinear_arith)
                requires
                    0 <= level as int <= 100_000_000,
            ;
        }
        (BASE_EXP * (EXP_MULTIPLIER * level as i64)) / 1000
    }
}

/// How full the experience bar is, in thousandths: the accumulated
/// experience over the current level's threshold.
pub open spec fn spec_xp_bar_permille(current: int, level: int) -> int {
    1000 * current / spec_xp_to_next_level(level)
}

/// Computes the experience-bar fill the presentation layer shows.
pub fn xp_bar_permille(current: i64, level: u32) -> (r: i64)
    requires
        spec_xp_wf(level as int, current as int),
    ensures
        r == spec_xp_bar_permille(current as int, level as int),
        0 <= r < 1000,
{
    proof {
        let needed = spec_xp_to_next_level(level as int);
        vstd::arithmetic::div_mod::lemma_div_pos_is_pos(1000 * current as int, needed);
        assert(1000 * current as int <= 1_000 * 15_000_000_000_000) by (nonlinear_arith)
            requires
                0 <= current as int <= 15_000_000_000_000,
        ;
        assert((1000 * current as int) < 1000 * needed) by (nonlinear_arith)
            requires
                (current as int) < needed,
        ;
        vstd::arithmetic::div_mod::lemma_multiply_divide_lt(1000 * current as int, needed, 1000);
    }
    (1000 * current) / (150_000 * level as i64)
}

/// One defeat's worth of leveling: the award lands on the counter; at or
/// above the current level's threshold, the level rises by one (saturating
/// at the level cap) and the counter resets to exactly zero, with no
/// carry-over.
pub open spec fn spec_award_once(level: int, xp: int) -> (int, int) {
    if xp + XP_AWARD >= spec_xp_to_next_level(level) {
        ((if level < LEVEL_LIMIT {
            level + 1
        } else {
            level
        }), 0)
    } else {
        (level, xp + XP_AWARD)
    }
}

/// The level and experience after `n` defeats.
pub open spec fn spec_award_many(level: int, xp: int, n: int) -> (int, int)
    decreases n,
{
    if n <= 0 {
        (level, xp)
    } else {
        let prev = spec_award_many(level, xp, n - 1);
        spec_award_once(prev.0, prev.1)
    }
}

/// Whether a level and experience counter are in the engine's domain: the
/// counter sits inside the current level, never negative.
pub open spec fn spec_xp_wf(level: int, xp: int) -> bool {
    &&& 1 <= level <= LEVEL_LIMIT
    &&& 0 <= xp < spec_xp_to_next_level(level)
}

/// One defeat keeps the counters in the engine's domain.
pub proof fn lemma_award_once_wf(level: int, xp: int)
    requires
        spec_xp_wf(level, xp),
    ensures
        spec_xp_wf(spec_award_once(level, xp).0, spec_award_once(level, xp).1),
{
}

/// Awards experience for each defeat event, one level-up per defeat at most.
pub fn award_experience(
    level: &mut Level,
    experience: &mut Experience,
    defeated: &Vec<EnemyDefeatedEvent>,
)
    requires
        spec_xp_wf(old(level).0 as int, old(experience).0 as int),
    ensures
        (final(level).0 as int, final(experience).0 as int) == spec_award_many(
            old(level).0 as int,
            old(experience).0 as int,
            defeated@.len() as int,
        ),
        spec_xp_wf(final(level).0 as int, final(experience).0 as int),
{
    let n: usize = defeated.len();
    let mut i: usize = 0;
    while i < n
        invariant
            0 <= i <= n,
            (level.0 as int, experience.0 as int) == spec_award_many(
                old(level).0 as int,
                old(experience).0 as int,
                i as int,
            ),
            spec_xp_wf(level.0 as int, experience.0 as int),
        decreases n - i,
    {
        let xp_needed = experience.xp_to_next_level(level.get());
        experience.0 = experience.0 + XP_AWARD;
        if experience.current() >= xp_needed {
            if level.0 < LEVEL_LIMIT {
                level.0 = level.0 + 1;
            }
            experience.0 = 0;
        }
        i = i + 1;
    }
}

/// From a fresh first level, five defeats leave the level untouched with
/// the experience counter at exactly the awards' sum, and the sixth defeat
/// crosses the threshold: the level becomes two and the counter resets to
/// exactly zero — never negative, and carrying no remainder.
pub proof fn lemma_awards_reach_level_two()
    ensures
        forall|k: int|
            0 <= k <= 5 ==> #[trigger] spec_award_many(1, 0, k) == (1int, 25_000 * k),
        spec_award_many(1, 0, 6) == (2int, 0int),
{
    assert(spec_award_many(1, 0, 0) == (1int, 0int));
    assert(spec_award_many(1, 0, 1) == (1int, 25_000int));
    assert(spec_award_many(1, 0, 2) == (1int, 50_000int));
    assert(spec_award_many(1, 0, 3) == (1int, 75_000int));
    assert(spec_award_many(1, 0, 4) == (1int, 100_000int));
    assert(spec_award_many(1, 0, 5) == (1int, 125_000int));
    assert(spec_award_many(1, 0, 6) == (2int, 0int));
    assert forall|k: int| 0 <= k <= 5 implies #[trigger] spec_award_many(1, 0, k) == (
    1int,
    25_000 * k,
    ) by {
        if k == 0 {
            assert(spec_award_many(1, 0, k) == (1int, 25_000 * k));
        } else if k == 1 {
            assert(spec_award_many(1, 0, k) == (1int, 25_000 * k));
        } else if k == 2 {
            assert(spec_award_many(1, 0, k) == (1int, 25_000 * k));
        } else if k == 3 {
            assert(spec_award_many(1, 0, k) == (1int, 25_000 * k));
        } else if k == 4 {
            assert(spec_award_many(1, 0, k) == (1int, 25_000 * k));
        } else {
            assert(spec_award_many(1, 0, k) == (1int, 25_000 * k));
        }
    }
}

} // verus!
