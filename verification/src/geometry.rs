//! Integer vector geometry for the simulation world.
//!
//! Positions and displacements are 3-vectors of milli-pixels (the z axis is
//! carried for draw ordering only, but takes part in distances exactly as the
//! other two axes do).

use vstd::prelude::*;

verus! {

/// Largest coordinate magnitude the world admits, in milli-pixels.
pub const POS_LIMIT: i64 = 1_000_000_000;

/// Largest per-tick speed the world admits, in milli-pixels.
pub const SPEED_LIMIT: i64 = 1_000_000;

/// A world position or displacement, in milli-pixels.
#[derive(Clone, Copy, Debug, PartialEq, Eq, Structural)]
pub struct Vec3 {
    pub x: i64,
    pub y: i64,
    pub z: i64,
}

impl Vec3 {
    /// Every coordinate stays within the world bound.
    pub open spec fn wf(self) -> bool {
        &&& -POS_LIMIT <= self.x <= POS_LIMIT
        &&& -POS_LIMIT <= self.y <= POS_LIMIT
        &&& -POS_LIMIT <= self.z <= POS_LIMIT
    }

    pub fn new(x: i64, y: i64, z: i64) -> (v: Vec3)
        ensures
            v == (Vec3 { x, y, z }),
    {
        Vec3 { x, y, z }
    }
}

/// Squared Euclidean distance between two positions, as unbounded integers.
pub open spec fn spec_dist_sq(a: Vec3, b: Vec3) -> int {
    (a.x - b.x) * (a.x - b.x) + (a.y - b.y) * (a.y - b.y) + (a.z - b.z) * (a.z - b.z)
}

/// A coordinate pushed back inside the world bound.
pub open spec fn spec_clamp_coord(v: int) -> int {
    if v < -POS_LIMIT {
        -POS_LIMIT as int
    } else if v > POS_LIMIT {
        POS_LIMIT as int
    } else {
        v
    }
}

pub fn clamp_coord(v: i64) -> (r: i64)
    ensures
        r == spec_clamp_coord(v as int),
        -POS_LIMIT <= r <= POS_LIMIT,
{
    if v < -POS_LIMIT {
        -POS_LIMIT
    } else if v > POS_LIMIT {
        POS_LIMIT
    } else {
        v
    }
}

/// The square of a coordinate difference stays well inside `i64`.
pub proof fn lemma_square_bounded(d: int)
    requires
        -2_000_000_000 <= d <= 2_000_000_000,
    ensures
        0 <= d * d <= 4_000_000_000_000_000_000,
{
    assert(0 <= d * d <= 4_000_000_000_000_000_000) by (nonlinear_arith)
        requires
            -2_000_000_000 <= d <= 2_000_000_000,
    ;
}

/// Squared distance between two in-bounds positions; fits in a `u64` because
/// each coordinate difference is at most `2 * POS_LIMIT`.
pub fn dist_sq(a: Vec3, b: Vec3) -> (r: u64)
    requires
        a.wf(),
        b.wf(),
    ensures
        r == spec_dist_sq(a, b),
{
    let dx: i64 = a.x - b.x;
    let dy: i64 = a.y - b.y;
    let dz: i64 = a.z - b.z;
    proof {
        lemma_square_bounded(dx as int);
        lemma_square_bounded(dy as int);
        lemma_square_bounded(dz as int);
    }
    let sx: u64 = (dx * dx) as u64;
    let sy: u64 = (dy * dy) as u64;
    let sz: u64 = (dz * dz) as u64;
    sx + sy + sz
}

/// Floor of the square root of a nonnegative integer.
pub open spec fn spec_sqrt_floor(n: int) -> int
    decreases n,
{
    if n < 1 {
        0
    } else {
        let s = spec_sqrt_floor(n - 1);
        if (s + 1) * (s + 1) <= n {
            s + 1
        } else {
            s
        }
    }
}

/// `spec_sqrt_floor` is the greatest integer whose square is at most `n`.
pub proof fn lemma_sqrt_floor_bounds(n: int)
    requires
        0 <= n,
    ensures
        0 <= spec_sqrt_floor(n),
        spec_sqrt_floor(n) * spec_sqrt_floor(n) <= n,
        n < (spec_sqrt_floor(n) + 1) * (spec_sqrt_floor(n) + 1),
    decreases n,
{
    if n >= 1 {
        lemma_sqrt_floor_bounds(n - 1);
        let s = spec_sqrt_floor(n - 1);
        if (s + 1) * (s + 1) <= n {
            assert(n - 1 < (s + 1) * (s + 1));
            assert(n == (s + 1) * (s + 1));
            assert(n < (s + 2) * (s + 2)) by (nonlinear_arith)
                requires
                    0 <= s,
                    n == (s + 1) * (s + 1),
            ;
        }
    }
}

/// Any integer within the square-root bounds for `n` is `spec_sqrt_floor(n)`.
pub proof fn lemma_sqrt_floor_unique(n: int, r: int)
    requires
        0 <= n,
        0 <= r,
        r * r <= n,
        n < (r + 1) * (r + 1),
    ensures
        r == spec_sqrt_floor(n),
{
    lemma_sqrt_floor_bounds(n);
    let s = spec_sqrt_floor(n);
    assert(r == s) by (nonlinear_arith)
        requires
            0 <= r,
            0 <= s,
            r * r <= n,
            n < (r + 1) * (r + 1),
            s * s <= n,
            n < (s + 1) * (s + 1),
    ;
}

/// Floor of the square root of a `u64`, by bisection.
pub fn isqrt(n: u64) -> (r: u64)
    ensures
        r == spec_sqrt_floor(n as int),
        r * r <= n,
        n < (r + 1) * (r + 1),
        r < 4_294_967_296,
{
    let mut lo: u64 = 0;
    let mut hi: u64 = 4_294_967_296;
    proof {
        assert((4_294_967_296 as int) * (4_294_967_296 as int) > n as int);
    }
    while hi - lo > 1
        invariant
            0 <= lo < hi <= 4_294_967_296,
            lo * lo <= n,
            (n as int) < (hi as int) * (hi as int),
        decreases hi - lo,
    {
        let mid: u64 = lo + (hi - lo) / 2;
        proof {
            assert(mid as int * mid as int <= 4_294_967_296 * 4_294_967_296) by (nonlinear_arith)
                requires
                    0 <= mid as int <= 4_294_967_296,
            ;
        }
        if (mid as u128) * (mid as u128) <= n as u128 {
            lo = mid;
        } else {
            hi = mid;
        }
    }
    proof {
        assert(hi == lo + 1);
        lemma_sqrt_floor_unique(n as int, lo as int);
    }
    lo
}

/// One axis of a normalized step: the displacement along that axis, scaled by
/// `speed` and divided by the full distance `d`, rounded toward zero.
pub open spec fn spec_axis_step(delta: int, speed: int, d: int) -> int {
    if delta < 0 {
        -((-delta) * speed / d)
    } else {
        delta * speed / d
    }
}

fn axis_step(delta: i64, speed: i64, d: u64) -> (s: i64)
    requires
        -2_000_000_000 <= delta <= 2_000_000_000,
        0 <= speed <= SPEED_LIMIT,
        1 <= d < 4_294_967_296,
        (if delta < 0 {
            -delta
        } else {
            delta as int
        }) <= d,
    ensures
        s == spec_axis_step(delta as int, speed as int, d as int),
        -speed <= s <= speed,
{
    let ad: u64 = if delta < 0 {
        (-delta) as u64
    } else {
        delta as u64
    };
    proof {
        assert(ad as int * speed as int <= 2_000_000_000 * 1_000_000) by (nonlinear_arith)
            requires
                0 <= ad as int <= 2_000_000_000,
                0 <= speed as int <= 1_000_000,
        ;
    }
    let prod: u64 = ad * (speed as u64);
    let q: u64 = prod / d;
    proof {
        assert(ad as int * speed as int <= d as int * speed as int) by (nonlinear_arith)
            requires
                0 <= ad as int <= d as int,
                0 <= speed as int,
        ;
        vstd::arithmetic::div_mod::lemma_div_is_ordered(
            ad as int * speed as int,
            d as int * speed as int,
            d as int,
        );
        vstd::arithmetic::div_mod::lemma_div_multiples_vanish(speed as int, d as int);
    }
    if delta < 0 {
        -(q as i64)
    } else {
        q as i64
    }
}

/// The position one tick of movement reaches: from `from` toward `to` at
/// `speed` milli-pixels per tick, along the straight line between the two,
/// clamped into the world bound. At zero distance no movement happens.
pub open spec fn spec_step_toward(from: Vec3, to: Vec3, speed: int) -> Vec3 {
    let dsq = spec_dist_sq(to, from);
    if dsq == 0 {
        from
    } else {
        let d = spec_sqrt_floor(dsq);
        Vec3 {
            x: spec_clamp_coord(from.x + spec_axis_step(to.x - from.x, speed, d)) as i64,
            y: spec_clamp_coord(from.y + spec_axis_step(to.y - from.y, speed, d)) as i64,
            z: spec_clamp_coord(from.z + spec_axis_step(to.z - from.z, speed, d)) as i64,
        }
    }
}

pub fn step_toward(from: Vec3, to: Vec3, speed: i64) -> (r: Vec3)
    requires
        from.wf(),
        to.wf(),
        0 <= speed <= SPEED_LIMIT,
    ensures
        r == spec_step_toward(from, to, speed as int),
        r.wf(),
{
    let dsq: u64 = dist_sq(to, from);
    if dsq == 0 {
        return from;
    }
    let d: u64 = isqrt(dsq);
    proof {
        let dx = to.x - from.x;
        let dy = to.y - from.y;
        let dz = to.z - from.z;
        assert(dx * dx <= dsq && dy * dy <= dsq && dz * dz <= dsq) by (nonlinear_arith)
            requires
                dsq as int == dx * dx + dy * dy + dz * dz,
        ;
        lemma_axis_within_distance(dx, dsq as int, d as int);
        lemma_axis_within_distance(dy, dsq as int, d as int);
        lemma_axis_within_distance(dz, dsq as int, d as int);
    }
    let sx: i64 = axis_step(to.x - from.x, speed, d);
    let sy: i64 = axis_step(to.y - from.y, speed, d);
    let sz: i64 = axis_step(to.z - from.z, speed, d);
    Vec3 {
        x: clamp_coord(from.x + sx),
        y: clamp_coord(from.y + sy),
        z: clamp_coord(from.z + sz),
    }
}

/// A single axis displacement never exceeds the full distance: its square is
/// at most the squared distance, and the distance floor-root is at least it.
proof fn lemma_axis_within_distance(delta: int, dsq: int, d: int)
    requires
        1 <= dsq,
        delta * delta <= dsq,
        d == spec_sqrt_floor(dsq),
    ensures
        1 <= d,
        (if delta < 0 {
            -delta
        } else {
            delta
        }) <= d,
{
    lemma_sqrt_floor_bounds(dsq);
    let a = if delta < 0 {
        -delta
    } else {
        delta
    };
    assert(a * a == delta * delta) by (nonlinear_arith)
        requires
            a == (if delta < 0 {
                -delta
            } else {
                delta
            }),
    ;
    assert(a <= d) by (nonlinear_arith)
        requires
            0 <= a,
            0 <= d,
            a * a <= dsq,
            dsq < (d + 1) * (d + 1),
    ;
    assert(1 <= d) by (nonlinear_arith)
        requires
            0 <= d,
            dsq < (d + 1) * (d + 1),
            1 <= dsq,
    ;
}

} // verus!
