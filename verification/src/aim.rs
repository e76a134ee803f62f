//! World-space aim: canonical directions and exact angles.
//!
//! A click at a world point and the player's position give a difference
//! vector.  Dividing the vector by the greatest common divisor of its
//! component magnitudes leaves the canonical primitive pair for its
//! direction, and every value derived from the pair — the fixed-point unit
//! direction and the aim angle — is therefore exactly invariant under
//! positive integer scaling of the difference.
//!
//! The aim angle itself is kept exact as an [`AimAngle`]: the primitive
//! integer pair of the unit-circle point the angle stands for, rather than a
//! rounded count of radians.  A renderer turns it into radians at the edge
//! with a two-argument arctangent.

use vstd::prelude::*;
use crate::fixp::{iabs, tdiv, abs_i64, SCALE, DIFF_BOUND};
use crate::geom::Vec2Fx;
use crate::num::{gcd, gcd_u64, isqrt_u128, lemma_gcd_pos, lemma_gcd_reduced, lemma_gcd_scale};

verus! {

/// An angle, held exactly: the primitive integer pair `(x, y)` such that the
/// angle is the one of the plane vector `(x, y)` — the two-argument
/// arctangent of `y` and `x`.
#[derive(Clone, Copy, PartialEq, Eq, Structural, Debug)]
pub struct AimAngle {
    pub x: i64,
    pub y: i64,
}

impl AimAngle {
    /// The pair is nonzero, primitive, and of bounded magnitude.
    pub open spec fn wf(self) -> bool {
        &&& !(self.x == 0 && self.y == 0)
        &&& gcd(iabs(self.x as int) as nat, iabs(self.y as int) as nat) == 1
        &&& iabs(self.x as int) <= DIFF_BOUND
        &&& iabs(self.y as int) <= DIFF_BOUND
    }
}

/// The common divisor a difference vector is canonicalised by.
pub open spec fn dir_gcd(dx: int, dy: int) -> int {
    gcd(iabs(dx) as nat, iabs(dy) as nat) as int
}

/// First component of the canonical primitive pair of `(dx, dy)`.
pub open spec fn reduced_x(dx: int, dy: int) -> int {
    dx / dir_gcd(dx, dy)
}

/// Second component of the canonical primitive pair of `(dx, dy)`.
pub open spec fn reduced_y(dx: int, dy: int) -> int {
    dy / dir_gcd(dx, dy)
}

/// A signed exact multiple divides back to its cofactor.
proof fn lemma_exact_div(v: int, g: int, q: int)
    requires
        g > 0,
        g * q == v,
    ensures
        v / g == q,
{
    assert(v == q * g + 0) by (nonlinear_arith)
        requires
            g * q == v,
    ;
    vstd::arithmetic::div_mod::lemma_fundamental_div_mod_converse(v, g, q, 0);
}

/// The canonical pair of a nonzero vector: the divisor is positive, the pair
/// multiplies back to the vector, is primitive, keeps each component's sign
/// and zeroness, and shrinks no magnitude.
pub proof fn lemma_reduced(dx: int, dy: int)
    requires
        !(dx == 0 && dy == 0),
    ensures
        dir_gcd(dx, dy) >= 1,
        dir_gcd(dx, dy) * reduced_x(dx, dy) == dx,
        dir_gcd(dx, dy) * reduced_y(dx, dy) == dy,
        gcd(iabs(reduced_x(dx, dy)) as nat, iabs(reduced_y(dx, dy)) as nat) == 1,
        iabs(reduced_x(dx, dy)) == iabs(dx) / dir_gcd(dx, dy),
        iabs(reduced_y(dx, dy)) == iabs(dy) / dir_gcd(dx, dy),
        iabs(reduced_x(dx, dy)) <= iabs(dx),
        iabs(reduced_y(dx, dy)) <= iabs(dy),
        reduced_x(dx, dy) == 0 <==> dx == 0,
        reduced_y(dx, dy) == 0 <==> dy == 0,
        reduced_x(dx, dy) >= 0 <==> dx >= 0,
        reduced_y(dx, dy) >= 0 <==> dy >= 0,
        !(reduced_x(dx, dy) == 0 && reduced_y(dx, dy) == 0),
{
    let a = iabs(dx) as nat;
    let b = iabs(dy) as nat;
    lemma_gcd_pos(a, b);
    lemma_gcd_reduced(a, b);
    let g = gcd(a, b) as int;
    let qa = a as int / g;
    let qb = b as int / g;
    vstd::arithmetic::div_mod::lemma_div_nonincreasing(a as int, g);
    vstd::arithmetic::div_mod::lemma_div_nonincreasing(b as int, g);
    if dx >= 0 {
        lemma_exact_div(dx, g, qa);
    } else {
        assert(g * (-qa) == dx) by (nonlinear_arith)
            requires
                g * qa == -dx,
        ;
        lemma_exact_div(dx, g, -qa);
    }
    if dy >= 0 {
        lemma_exact_div(dy, g, qb);
    } else {
        assert(g * (-qb) == dy) by (nonlinear_arith)
            requires
                g * qb == -dy,
        ;
        lemma_exact_div(dy, g, -qb);
    }
    assert(qa == 0 ==> a == 0) by (nonlinear_arith)
        requires
            g * qa == a,
    ;
    assert(qb == 0 ==> b == 0) by (nonlinear_arith)
        requires
            g * qb == b,
    ;
}

/// Canonicalising is scale-invariant: a positive common factor of the
/// difference vector leaves the primitive pair unchanged.
pub proof fn lemma_reduced_scale(dx: int, dy: int, k: int)
    requires
        !(dx == 0 && dy == 0),
        k > 0,
    ensures
        reduced_x(k * dx, k * dy) == reduced_x(dx, dy),
        reduced_y(k * dx, k * dy) == reduced_y(dx, dy),
{
    lemma_reduced(dx, dy);
    let g = dir_gcd(dx, dy);
    let rx = reduced_x(dx, dy);
    let ry = reduced_y(dx, dy);
    assert(iabs(k * dx) == k * iabs(dx) && iabs(k * dy) == k * iabs(dy)) by (nonlinear_arith)
        requires
            k > 0,
    ;
    lemma_gcd_scale(k as nat, iabs(dx) as nat, iabs(dy) as nat);
    assert(dir_gcd(k * dx, k * dy) == k * g);
    assert(!(k * dx == 0 && k * dy == 0)) by (nonlinear_arith)
        requires
            k > 0,
            !(dx == 0 && dy == 0),
    ;
    assert((k * g) * rx == k * dx && (k * g) * ry == k * dy) by (nonlinear_arith)
        requires
            g * rx == dx,
            g * ry == dy,
    ;
    assert(k * g > 0) by (nonlinear_arith)
        requires
            k > 0,
            g >= 1,
    ;
    lemma_exact_div(k * dx, k * g, rx);
    lemma_exact_div(k * dy, k * g, ry);
}

/// Canonicalises a nonzero difference vector to its primitive pair.
pub fn reduce_dir(dx: i64, dy: i64) -> (r: Vec2Fx)
    requires
        !(dx == 0 && dy == 0),
        iabs(dx as int) <= DIFF_BOUND,
        iabs(dy as int) <= DIFF_BOUND,
    ensures
        r.x as int == reduced_x(dx as int, dy as int),
        r.y as int == reduced_y(dx as int, dy as int),
{
    proof {
        lemma_reduced(dx as int, dy as int);
    }
    let ax: u64 = abs_i64(dx);
    let ay: u64 = abs_i64(dy);
    let g: u64 = gcd_u64(ax, ay);
    let qx: u64 = ax / g;
    let qy: u64 = ay / g;
    let rx: i64 = if dx >= 0 {
        qx as i64
    } else {
        -(qx as i64)
    };
    let ry: i64 = if dy >= 0 {
        qy as i64
    } else {
        -(qy as i64)
    };
    Vec2Fx { x: rx, y: ry }
}

/// Squared fixed-point length of the pair `(rx, ry)` after scaling both
/// components up by one fixed-point factor.
pub open spec fn norm_sq(rx: int, ry: int) -> int {
    (rx * SCALE) * (rx * SCALE) + (ry * SCALE) * (ry * SCALE)
}

/// Denominator of the fixed-point normalisation of `(rx, ry)`.
pub open spec fn unit_len(rx: int, ry: int) -> int {
    crate::num::sqrt_floor(norm_sq(rx, ry))
}

/// First component of the fixed-point unit vector along `(rx, ry)`.
pub open spec fn unit_x_of(rx: int, ry: int) -> int {
    tdiv(rx * SCALE * SCALE, unit_len(rx, ry))
}

/// Second component of the fixed-point unit vector along `(rx, ry)`.
pub open spec fn unit_y_of(rx: int, ry: int) -> int {
    tdiv(ry * SCALE * SCALE, unit_len(rx, ry))
}

/// A normalised component never exceeds one fixed-point unit in magnitude.
proof fn lemma_unit_component_bound(rv: int, n: int, l: int)
    requires
        crate::num::is_isqrt(n, l),
        (rv * SCALE) * (rv * SCALE) <= n,
        l >= 1,
    ensures
        iabs(tdiv(rv * SCALE * SCALE, l)) <= SCALE,
{
    let m = iabs(rv);
    assert((m * SCALE) * (m * SCALE) == (rv * SCALE) * (rv * SCALE)) by (nonlinear_arith)
        requires
            m == iabs(rv),
    ;
    crate::num::lemma_isqrt_at_least(n, l, m * SCALE);
    if rv == 0 {
        vstd::arithmetic::div_mod::lemma_basic_div(0, l);
    } else {
        assert(m >= 1);
        crate::fixp::lemma_tdiv_bound(rv * SCALE * SCALE, l, m * SCALE * SCALE);
        vstd::arithmetic::div_mod::lemma_div_is_ordered_by_denominator(
            m * SCALE * SCALE,
            m * SCALE,
            l,
        );
        assert((m * SCALE) * SCALE == m * SCALE * SCALE);
        vstd::arithmetic::div_mod::lemma_div_multiples_vanish(SCALE as int, m * SCALE);
        assert((m * SCALE) * SCALE == m * SCALE * SCALE);
    }
}

/// The component of larger magnitude keeps a nonzero normalised value.
proof fn lemma_unit_component_nonzero(rv: int, other: int, n: int, l: int)
    requires
        crate::num::is_isqrt(n, l),
        n == (rv * SCALE) * (rv * SCALE) + (other * SCALE) * (other * SCALE),
        iabs(other) <= iabs(rv),
        rv != 0,
        l >= 1,
    ensures
        tdiv(rv * SCALE * SCALE, l) != 0,
{
    let m = iabs(rv);
    assert(m >= 1);
    assert((m * SCALE) * (m * SCALE) == (rv * SCALE) * (rv * SCALE)) by (nonlinear_arith)
        requires
            m == iabs(rv),
    ;
    assert((other * SCALE) * (other * SCALE) <= (m * SCALE) * (m * SCALE)) by (nonlinear_arith)
        requires
            iabs(other) <= m,
    ;
    assert(n <= 2 * ((m * SCALE) * (m * SCALE)));
    assert(l <= 2 * (m * SCALE)) by {
        if l > 2 * (m * SCALE) {
            assert(l * l > (2 * (m * SCALE)) * (2 * (m * SCALE))) by (nonlinear_arith)
                requires
                    l > 2 * (m * SCALE),
                    m * SCALE >= 0,
            ;
            assert((2 * (m * SCALE)) * (2 * (m * SCALE)) >= 2 * ((m * SCALE) * (m * SCALE)))
                by (nonlinear_arith)
            ;
        }
    }
    assert(2 * (m * SCALE) <= m * SCALE * SCALE) by (nonlinear_arith)
        requires
            m >= 1,
            SCALE >= 2,
    ;
    vstd::arithmetic::div_mod::lemma_div_non_zero(m * SCALE * SCALE, l);
    assert(tdiv(rv * SCALE * SCALE, l) == if rv >= 0 {
        (m * SCALE * SCALE) / l
    } else {
        -((m * SCALE * SCALE) / l)
    });
}

/// Normalises a nonzero pair to a fixed-point unit vector: each component is
/// the pair's component, scaled up and divided by the integer square root of
/// the scaled squared length.
pub fn normalize_dir(rx: i64, ry: i64) -> (u: Vec2Fx)
    requires
        !(rx == 0 && ry == 0),
        iabs(rx as int) <= DIFF_BOUND,
        iabs(ry as int) <= DIFF_BOUND,
    ensures
        u.x as int == unit_x_of(rx as int, ry as int),
        u.y as int == unit_y_of(rx as int, ry as int),
        iabs(u.x as int) <= SCALE,
        iabs(u.y as int) <= SCALE,
        !(u.x == 0 && u.y == 0),
{
    let sx: i64 = rx * SCALE;
    let sy: i64 = ry * SCALE;
    let axs: u64 = abs_i64(sx);
    let ays: u64 = abs_i64(sy);
    proof {
        crate::fixp::lemma_mul_le(axs as int, axs as int, 11_000_000_000_000, 11_000_000_000_000);
        crate::fixp::lemma_mul_le(ays as int, ays as int, 11_000_000_000_000, 11_000_000_000_000);
        assert(axs as int * axs as int == sx as int * sx as int) by (nonlinear_arith)
            requires
                axs as int == sx as int || axs as int == -(sx as int),
        ;
        assert(ays as int * ays as int == sy as int * sy as int) by (nonlinear_arith)
            requires
                ays as int == sy as int || ays as int == -(sy as int),
        ;
    }
    let n: u128 = (axs as u128) * (axs as u128) + (ays as u128) * (ays as u128);
    proof {
        if rx != 0 {
            assert(axs >= 1000);
            assert(axs as int * axs as int >= 1_000_000) by (nonlinear_arith)
                requires
                    axs as int >= 1000,
            ;
        } else {
            assert(ays >= 1000);
            assert(ays as int * ays as int >= 1_000_000) by (nonlinear_arith)
                requires
                    ays as int >= 1000,
            ;
        }
    }
    let l64: u64 = isqrt_u128(n);
    proof {
        crate::num::lemma_isqrt_at_least(n as int, l64 as int, 1);
        if l64 > 20_000_000_000_000 {
            assert(l64 as int * l64 as int > 20_000_000_000_000int * 20_000_000_000_000)
                by (nonlinear_arith)
                requires
                    l64 as int > 20_000_000_000_000,
            ;
        }
    }
    let l: i64 = l64 as i64;
    let ux: i64 = crate::fixp::mul_tdiv(rx, 1_000_000, l);
    let uy: i64 = crate::fixp::mul_tdiv(ry, 1_000_000, l);
    proof {
        assert(rx as int * 1_000_000 == rx as int * SCALE * SCALE);
        assert(ry as int * 1_000_000 == ry as int * SCALE * SCALE);
        lemma_unit_component_bound(rx as int, n as int, l as int);
        lemma_unit_component_bound(ry as int, n as int, l as int);
        if abs_le(rx as int, ry as int) {
            lemma_unit_component_nonzero(ry as int, rx as int, n as int, l as int);
        } else {
            lemma_unit_component_nonzero(rx as int, ry as int, n as int, l as int);
        }
    }
    Vec2Fx { x: ux, y: uy }
}

/// The first magnitude is at most the second.
pub open spec fn abs_le(a: int, b: int) -> bool {
    iabs(a) <= iabs(b)
}

/// A click selects an aim only when the world point differs from the
/// player's position; a zero difference vector has no direction and the
/// event is skipped.
pub open spec fn aim_active(player: Vec2Fx, world: Vec2Fx) -> bool {
    !(world.x == player.x && world.y == player.y)
}

/// Horizontal difference from the player to the clicked world point.
pub open spec fn aim_dx(player: Vec2Fx, world: Vec2Fx) -> int {
    world.x - player.x
}

/// Vertical difference from the player to the clicked world point.
pub open spec fn aim_dy(player: Vec2Fx, world: Vec2Fx) -> int {
    world.y - player.y
}

/// First component of the fixed-point unit direction of fire: the
/// normalised direction from the player to the clicked world point.
pub open spec fn aim_dir_x(player: Vec2Fx, world: Vec2Fx) -> int {
    unit_x_of(
        reduced_x(aim_dx(player, world), aim_dy(player, world)),
        reduced_y(aim_dx(player, world), aim_dy(player, world)),
    )
}

/// Second component of the fixed-point unit direction of fire.
pub open spec fn aim_dir_y(player: Vec2Fx, world: Vec2Fx) -> int {
    unit_y_of(
        reduced_x(aim_dx(player, world), aim_dy(player, world)),
        reduced_y(aim_dx(player, world), aim_dy(player, world)),
    )
}

/// First component of the aim angle pair.  The angle is the one of the
/// vector from the clicked world point back to the player, turned a further
/// quarter turn counterclockwise, which aligns a sprite drawn facing up with
/// the direction of fire; on primitive pairs the quarter turn is the exact
/// map `(x, y)` to `(-y, x)`.
pub open spec fn aim_angle_x(player: Vec2Fx, world: Vec2Fx) -> int {
    reduced_y(aim_dx(player, world), aim_dy(player, world))
}

/// Second component of the aim angle pair.
pub open spec fn aim_angle_y(player: Vec2Fx, world: Vec2Fx) -> int {
    -reduced_x(aim_dx(player, world), aim_dy(player, world))
}

/// Computes the unit direction and exact angle of a shot from the player's
/// position toward a clicked world point, or nothing when the click lands
/// exactly on the player.
pub fn compute_aim(player: Vec2Fx, world: Vec2Fx) -> (r: Option<(Vec2Fx, AimAngle)>)
    requires
        iabs(player.x as int) <= crate::fixp::WORLD_BOUND,
        iabs(player.y as int) <= crate::fixp::WORLD_BOUND,
        iabs(world.x as int) <= crate::fixp::AIM_BOUND,
        iabs(world.y as int) <= crate::fixp::AIM_BOUND,
    ensures
        r is Some <==> aim_active(player, world),
        (match r {
            Some((d, a)) => {
                &&& d.x as int == aim_dir_x(player, world)
                &&& d.y as int == aim_dir_y(player, world)
                &&& a.x as int == aim_angle_x(player, world)
                &&& a.y as int == aim_angle_y(player, world)
                &&& iabs(d.x as int) <= SCALE
                &&& iabs(d.y as int) <= SCALE
                &&& !(d.x == 0 && d.y == 0)
                &&& a.wf()
            },
            None => true,
        }),
{
    let dx: i64 = world.x - player.x;
    let dy: i64 = world.y - player.y;
    if dx == 0 && dy == 0 {
        return None;
    }
    proof {
        lemma_reduced(dx as int, dy as int);
    }
    let red = reduce_dir(dx, dy);
    let dir = normalize_dir(red.x, red.y);
    let angle = AimAngle { x: red.y, y: -red.x };
    proof {
        crate::num::lemma_gcd_comm(iabs(red.x as int) as nat, iabs(red.y as int) as nat);
        assert(iabs(angle.x as int) == iabs(red.y as int));
        assert(iabs(angle.y as int) == iabs(red.x as int));
    }
    Some((dir, angle))
}

/// Aim is scale-invariant: two clicks whose difference vectors from the
/// player point the same way — one a positive integer multiple of the other
/// — give identical unit directions and identical exact angles, whatever the
/// magnitudes.
pub proof fn lemma_aim_scale_invariant(player: Vec2Fx, w1: Vec2Fx, w2: Vec2Fx, k: int)
    requires
        aim_active(player, w1),
        k > 0,
        aim_dx(player, w2) == k * aim_dx(player, w1),
        aim_dy(player, w2) == k * aim_dy(player, w1),
    ensures
        aim_active(player, w2),
        aim_dir_x(player, w2) == aim_dir_x(player, w1),
        aim_dir_y(player, w2) == aim_dir_y(player, w1),
        aim_angle_x(player, w2) == aim_angle_x(player, w1),
        aim_angle_y(player, w2) == aim_angle_y(player, w1),
{
    let dx = aim_dx(player, w1);
    let dy = aim_dy(player, w1);
    assert(!(k * dx == 0 && k * dy == 0)) by (nonlinear_arith)
        requires
            k > 0,
            !(dx == 0 && dy == 0),
    ;
    lemma_reduced_scale(dx, dy, k);
}

} // verus!
