//! Fixed-point vector math for animation parameters.
//!
//! Spatial parameters are held in micro-units: one unit of world space is
//! one million micro-units. Interpolation weights come from a `LifeCycle`
//! progress fraction in parts per million, so a linear blend between two
//! positions is exact integer arithmetic.

use crate::lifecycle::PPM;
use vstd::prelude::*;

verus! {

/// Largest coordinate magnitude an animation parameter may hold, in
/// micro-units. Keeps every interpolation product inside `i64`.
pub const COORD_LIMIT: i64 = 0x200_0000_0000;

/// A counter bumped by one, sticking at its ceiling instead of wrapping.
pub open spec fn spec_saturating_inc(c: u64) -> u64 {
    if c == u64::MAX {
        c
    } else {
        (c + 1) as u64
    }
}

/// Bumps a counter, sticking at the ceiling instead of wrapping.
pub fn saturating_inc(c: u64) -> (r: u64)
    ensures
        r == spec_saturating_inc(c),
{
    if c == u64::MAX {
        c
    } else {
        c + 1
    }
}

/// A three-component vector in micro-units.
#[derive(Clone, Copy, Debug, PartialEq, Eq, Structural)]
pub struct Vec3i {
    pub x: i64,
    pub y: i64,
    pub z: i64,
}

impl Vec3i {
    /// All components within the coordinate limit.
    pub open spec fn bounded(&self) -> bool {
        -COORD_LIMIT <= self.x <= COORD_LIMIT && -COORD_LIMIT <= self.y <= COORD_LIMIT
            && -COORD_LIMIT <= self.z <= COORD_LIMIT
    }

    pub fn new(x: i64, y: i64, z: i64) -> (r: Vec3i)
        ensures
            r.x == x && r.y == y && r.z == z,
    {
        Vec3i { x, y, z }
    }
}

/// A value scaled by a nonnegative ratio, rounding the magnitude toward
/// zero.
pub open spec fn spec_scale_trunc(x: int, num: int, den: int) -> int
    recommends
        num >= 0,
        den > 0,
{
    if x >= 0 {
        x * num / den
    } else {
        -((-x) * num / den)
    }
}

/// Scales a value by a nonnegative ratio, rounding the magnitude toward
/// zero.
pub fn scale_trunc_i64(x: i64, num: i64, den: i64) -> (r: i64)
    requires
        num >= 0,
        den > 0,
        x > i64::MIN,
        (x as int) * (num as int) <= i64::MAX,
        -((x as int) * (num as int)) <= i64::MAX,
    ensures
        r == spec_scale_trunc(x as int, num as int, den as int),
{
    if x >= 0 {
        proof {
            assert(0 <= (x as int) * (num as int)) by (nonlinear_arith)
                requires
                    x >= 0,
                    num >= 0,
            ;
            vstd::arithmetic::div_mod::lemma_div_is_ordered(
                0,
                (x as int) * (num as int),
                den as int,
            );
            vstd::arithmetic::div_mod::lemma_div_is_ordered(
                (x as int) * (num as int) / (den as int),
                (x as int) * (num as int),
                1,
            );
            vstd::arithmetic::div_mod::lemma_div_is_ordered_by_denominator(
                (x as int) * (num as int),
                1,
                den as int,
            );
        }
        x * num / den
    } else {
        let m = -x;
        proof {
            assert((m as int) * (num as int) == -((x as int) * (num as int))) by (nonlinear_arith)
                requires
                    m as int == -(x as int),
            ;
            assert(0 <= (m as int) * (num as int)) by (nonlinear_arith)
                requires
                    m >= 0,
                    num >= 0,
            ;
            vstd::arithmetic::div_mod::lemma_div_is_ordered(
                0,
                (m as int) * (num as int),
                den as int,
            );
            vstd::arithmetic::div_mod::lemma_div_is_ordered_by_denominator(
                (m as int) * (num as int),
                1,
                den as int,
            );
        }
        -(m * num / den)
    }
}

/// Linear interpolation from `a` to `b` by a weight in parts per million,
/// rounding the travelled distance toward zero.
pub open spec fn spec_lerp(a: int, b: int, t_ppm: int) -> int {
    if b >= a {
        a + (b - a) * t_ppm / (PPM as int)
    } else {
        a - (a - b) * t_ppm / (PPM as int)
    }
}

/// The interpolant stays between its endpoints for weights up to one.
pub proof fn lemma_lerp_bounded(a: int, b: int, t_ppm: int)
    requires
        0 <= t_ppm <= PPM,
    ensures
        a <= b ==> a <= spec_lerp(a, b, t_ppm) <= b,
        b < a ==> b <= spec_lerp(a, b, t_ppm) <= a,
{
    if a <= b {
        assert(0 <= (b - a) * t_ppm <= (b - a) * (PPM as int)) by (nonlinear_arith)
            requires
                0 <= t_ppm <= PPM as int,
                b - a >= 0,
        ;
        assert((b - a) * (PPM as int) / (PPM as int) == b - a) by (nonlinear_arith);
        vstd::arithmetic::div_mod::lemma_div_is_ordered(
            (b - a) * t_ppm,
            (b - a) * (PPM as int),
            PPM as int,
        );
        vstd::arithmetic::div_mod::lemma_div_is_ordered(0, (b - a) * t_ppm, PPM as int);
    } else {
        assert(0 <= (a - b) * t_ppm <= (a - b) * (PPM as int)) by (nonlinear_arith)
            requires
                0 <= t_ppm <= PPM as int,
                a - b >= 0,
        ;
        assert((a - b) * (PPM as int) / (PPM as int) == a - b) by (nonlinear_arith);
        vstd::arithmetic::div_mod::lemma_div_is_ordered(
            (a - b) * t_ppm,
            (a - b) * (PPM as int),
            PPM as int,
        );
        vstd::arithmetic::div_mod::lemma_div_is_ordered(0, (a - b) * t_ppm, PPM as int);
    }
}

/// Interpolates one scalar in micro-units.
pub fn lerp_i64(a: i64, b: i64, t_ppm: u64) -> (r: i64)
    requires
        -COORD_LIMIT <= a <= COORD_LIMIT,
        -COORD_LIMIT <= b <= COORD_LIMIT,
        t_ppm <= PPM,
    ensures
        r == spec_lerp(a as int, b as int, t_ppm as int),
        -COORD_LIMIT <= r <= COORD_LIMIT,
{
    proof {
        lemma_lerp_bounded(a as int, b as int, t_ppm as int);
    }
    if b >= a {
        let d: i64 = b - a;
        proof {
            assert(d * (t_ppm as int) <= d * (PPM as int)) by (nonlinear_arith)
                requires
                    0 <= t_ppm as int <= PPM as int,
                    d >= 0,
            ;
            assert(d * (PPM as int) < 0x8000_0000_0000_0000) by (nonlinear_arith)
                requires
                    0 <= d <= 2 * COORD_LIMIT,
            ;
            assert(d * (t_ppm as int) >= 0) by (nonlinear_arith)
                requires
                    d >= 0,
                    t_ppm as int >= 0,
            ;
        }
        let travelled: i64 = d * (t_ppm as i64) / (PPM as i64);
        a + travelled
    } else {
        let d: i64 = a - b;
        proof {
            assert(d * (t_ppm as int) <= d * (PPM as int)) by (nonlinear_arith)
                requires
                    0 <= t_ppm as int <= PPM as int,
                    d >= 0,
            ;
            assert(d * (PPM as int) < 0x8000_0000_0000_0000) by (nonlinear_arith)
                requires
                    0 <= d <= 2 * COORD_LIMIT,
            ;
            assert(d * (t_ppm as int) >= 0) by (nonlinear_arith)
                requires
                    d >= 0,
                    t_ppm as int >= 0,
            ;
        }
        let travelled: i64 = d * (t_ppm as i64) / (PPM as i64);
        a - travelled
    }
}

/// Interpolates all three components of a vector.
pub fn lerp_vec3(a: &Vec3i, b: &Vec3i, t_ppm: u64) -> (r: Vec3i)
    requires
        a.bounded(),
        b.bounded(),
        t_ppm <= PPM,
    ensures
        r.x == spec_lerp(a.x as int, b.x as int, t_ppm as int),
        r.y == spec_lerp(a.y as int, b.y as int, t_ppm as int),
        r.z == spec_lerp(a.z as int, b.z as int, t_ppm as int),
        r.bounded(),
{
    Vec3i {
        x: lerp_i64(a.x, b.x, t_ppm),
        y: lerp_i64(a.y, b.y, t_ppm),
        z: lerp_i64(a.z, b.z, t_ppm),
    }
}

} // verus!
