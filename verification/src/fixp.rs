//! Fixed-point scalar arithmetic.
//!
//! Every world quantity (coordinate, speed, zoom factor, time delta) is an
//! `i64` counting subdivisions of a world unit: one unit is [`SCALE`]
//! subdivisions, so `1500` reads as one and a half units.  Divisions truncate
//! toward zero, and [`tdiv`] is the specification-level account of that
//! rounding; every executable helper here is pinned to an exact `tdiv`
//! formula.

use vstd::prelude::*;

verus! {

/// Fixed-point subdivisions per world unit.
pub const SCALE: i64 = 1000;

/// Largest magnitude a world coordinate may take; positions are clamped into
/// `[-WORLD_BOUND, WORLD_BOUND]` on every translation.
pub const WORLD_BOUND: i64 = 1_000_000_000;

/// Largest movement speed, in fixed-point units per second.
pub const SPEED_MAX: i64 = 10_000_000;

/// Largest time delta a single tick may carry (ten seconds, fixed-point).
pub const DT_MAX: i64 = 10_000;

/// Largest viewport width or height, in pixels.
pub const VIEW_MAX: i64 = 16_384;

/// Largest magnitude of a world point produced by unprojecting a cursor
/// position through the camera.
pub const AIM_BOUND: i64 = 10_000_000_000;

/// Largest magnitude of a component of an aim difference vector.
pub const DIFF_BOUND: i64 = 11_000_000_000;

/// Smallest zoom scale; zooming in never goes below half scale.
pub const ZOOM_MIN: i64 = 500;

/// Hard ceiling for any configured zoom scale.
pub const ZOOM_CAP: i64 = 1_000_000;

/// Truncating division: the quotient is rounded toward zero, as `i64`
/// division in executable code rounds.
pub open spec fn tdiv(a: int, b: int) -> int {
    if a >= 0 {
        a / b
    } else {
        -((-a) / b)
    }
}

/// Clamping a value into an interval, as a specification-level function.
pub open spec fn clamp_spec(v: int, lo: int, hi: int) -> int {
    if v < lo {
        lo
    } else if v > hi {
        hi
    } else {
        v
    }
}

/// Clamps `v` into `[lo, hi]`.
pub fn clamp_i64(v: i64, lo: i64, hi: i64) -> (r: i64)
    requires
        lo <= hi,
    ensures
        r == clamp_spec(v as int, lo as int, hi as int),
{
    if v < lo {
        lo
    } else if v > hi {
        hi
    } else {
        v
    }
}

/// The magnitude of a truncating quotient is bounded by the quotient of any
/// magnitude bound of the dividend.
pub proof fn lemma_tdiv_bound(a: int, b: int, m: int)
    requires
        b > 0,
        -m <= a <= m,
        0 <= m,
    ensures
        -(m / b) <= tdiv(a, b) <= m / b,
{
    if a >= 0 {
        vstd::arithmetic::div_mod::lemma_div_is_ordered(a, m, b);
        vstd::arithmetic::div_mod::lemma_div_pos_is_pos(a, b);
    } else {
        vstd::arithmetic::div_mod::lemma_div_is_ordered(-a, m, b);
        vstd::arithmetic::div_mod::lemma_div_pos_is_pos(-a, b);
    }
}

/// Magnitude of an integer.
pub open spec fn iabs(a: int) -> int {
    if a >= 0 {
        a
    } else {
        -a
    }
}

/// Magnitude of an `i64`, as an unsigned value.
pub fn abs_i64(a: i64) -> (r: u64)
    requires
        a > i64::MIN,
    ensures
        r == iabs(a as int),
{
    if a >= 0 {
        a as u64
    } else {
        (-a) as u64
    }
}

/// Bound on a product of two nonnegative factors.
pub proof fn lemma_mul_le(x: int, y: int, bound_x: int, bound_y: int)
    requires
        0 <= x <= bound_x,
        0 <= y <= bound_y,
    ensures
        0 <= x * y <= bound_x * bound_y,
{
    assert(0 <= x * y <= bound_x * bound_y) by (nonlinear_arith)
        requires
            0 <= x <= bound_x,
            0 <= y <= bound_y,
    ;
}

/// Bound on a product of three factors, the first signed and the others
/// nonnegative.
pub proof fn lemma_mul3_range(a: int, b: int, c: int, bound_a: int, bound_b: int, bound_c: int)
    requires
        0 <= bound_a,
        -bound_a <= a <= bound_a,
        0 <= b <= bound_b,
        0 <= c <= bound_c,
    ensures
        -(bound_a * bound_b * bound_c) <= a * b * c <= bound_a * bound_b * bound_c,
{
    assert(-(bound_a * bound_b * bound_c) <= a * b * c <= bound_a * bound_b * bound_c)
        by (nonlinear_arith)
        requires
            0 <= bound_a,
            -bound_a <= a <= bound_a,
            0 <= b <= bound_b,
            0 <= c <= bound_c,
    ;
}

/// `a * b * c`, rescaled by one fixed-point factor for each of the two
/// scaled multiplications: the product of a scaled direction component, a
/// scaled speed and a scaled time delta comes out as a plain scaled length.
pub fn mul3_tdiv_s2(a: i64, b: i64, c: i64) -> (r: i64)
    requires
        iabs(a as int) <= 100_000,
        0 <= b <= 20_000_000,
        0 <= c <= 20_000_000,
    ensures
        r == tdiv(a as int * b as int * c as int, SCALE as int * SCALE as int),
{
    proof {
        lemma_mul3_range(a as int, b as int, c as int, 100_000, 20_000_000, 20_000_000);
    }
    if a >= 0 {
        proof {
            lemma_mul_le(a as int, b as int, 100_000, 20_000_000);
            lemma_mul_le(a as int * b as int, c as int, 2_000_000_000_000, 20_000_000);
        }
        let p: u128 = (a as u128) * (b as u128) * (c as u128);
        let q: u128 = p / 1_000_000u128;
        proof {
            vstd::arithmetic::div_mod::lemma_div_is_ordered(
                p as int,
                40_000_000_000_000_000_000,
                1_000_000,
            );
        }
        q as i64
    } else {
        let m: u64 = abs_i64(a);
        proof {
            lemma_mul_le(m as int, b as int, 100_000, 20_000_000);
            lemma_mul_le(m as int * b as int, c as int, 2_000_000_000_000, 20_000_000);
        }
        let p: u128 = (m as u128) * (b as u128) * (c as u128);
        proof {
            assert(m as int * b as int * c as int == -(a as int * b as int * c as int))
                by (nonlinear_arith)
                requires
                    m as int == -(a as int),
            ;
        }
        let q: u128 = p / 1_000_000u128;
        proof {
            vstd::arithmetic::div_mod::lemma_div_is_ordered(
                p as int,
                40_000_000_000_000_000_000,
                1_000_000,
            );
        }
        -(q as i64)
    }
}

/// `a * m / d` with truncation, for a signed `a` and nonnegative scale
/// factor `m`; used to rescale one scaled quantity by another.
pub fn mul_tdiv(a: i64, m: i64, d: i64) -> (r: i64)
    requires
        iabs(a as int) <= 20_000_000_000,
        0 <= m <= 1_000_000,
        0 < d,
    ensures
        r == tdiv(a as int * m as int, d as int),
{
    proof {
        lemma_mul3_range(a as int, m as int, 1, 20_000_000_000, 1_000_000, 1);
    }
    if a >= 0 {
        proof {
            lemma_mul_le(a as int, m as int, 20_000_000_000, 1_000_000);
        }
        let p: u128 = (a as u128) * (m as u128);
        let q: u128 = p / (d as u128);
        proof {
            vstd::arithmetic::div_mod::lemma_div_nonincreasing(p as int, d as int);
        }
        q as i64
    } else {
        let mag: u64 = abs_i64(a);
        proof {
            lemma_mul_le(mag as int, m as int, 20_000_000_000, 1_000_000);
        }
        let p: u128 = (mag as u128) * (m as u128);
        proof {
            assert(mag as int * m as int == -(a as int * m as int)) by (nonlinear_arith)
                requires
                    mag as int == -(a as int),
            ;
        }
        let q: u128 = p / (d as u128);
        proof {
            vstd::arithmetic::div_mod::lemma_div_nonincreasing(p as int, d as int);
        }
        -(q as i64)
    }
}

} // verus!
