//! Greatest common divisor and integer square root.
//!
//! Aim directions are canonicalised by dividing a difference vector through
//! the greatest common divisor of its component magnitudes, which makes the
//! derived direction and angle exactly invariant under positive integer
//! scaling of the input.  Normalisation to a fixed-point unit vector then
//! divides by the integer square root of the squared length.

use vstd::prelude::*;

verus! {

/// Greatest common divisor, by Euclid's recursion; `gcd(a, 0) == a`.
pub open spec fn gcd(a: nat, b: nat) -> nat
    decreases b,
{
    if b == 0 {
        a
    } else {
        gcd(b, a % b)
    }
}

/// The greatest common divisor of two numbers, at least one nonzero, is
/// positive.
pub proof fn lemma_gcd_pos(a: nat, b: nat)
    requires
        a > 0 || b > 0,
    ensures
        gcd(a, b) > 0,
    decreases b,
{
    if b > 0 {
        lemma_gcd_pos(b, a % b);
    }
}

/// The greatest common divisor divides both of its arguments.
pub proof fn lemma_gcd_divides(a: nat, b: nat)
    requires
        a > 0 || b > 0,
    ensures
        a % gcd(a, b) == 0,
        b % gcd(a, b) == 0,
    decreases b,
{
    lemma_gcd_pos(a, b);
    let g = gcd(a, b) as int;
    if b == 0 {
        vstd::arithmetic::div_mod::lemma_mod_self_0(g);
        assert(0int % g == 0) by {
            vstd::arithmetic::div_mod::lemma_small_mod(0, g as nat);
        }
    } else {
        lemma_gcd_divides(b, a % b);
        assert(b as int % g == 0);
        assert((a % b) as int % g == 0);
        vstd::arithmetic::div_mod::lemma_fundamental_div_mod(a as int, b as int);
        let q = a as int / b as int;
        assert((b * q) % g == 0) by {
            vstd::arithmetic::div_mod::lemma_mul_mod_noop_left(b as int, q, g);
            assert((b as int % g) * q == 0) by (nonlinear_arith)
                requires
                    b as int % g == 0,
            ;
            assert(0int % g == 0) by {
                vstd::arithmetic::div_mod::lemma_small_mod(0, g as nat);
            }
        }
        assert(a as int % g == 0) by {
            vstd::arithmetic::div_mod::lemma_add_mod_noop(b as int * q, (a % b) as int, g);
            vstd::arithmetic::div_mod::lemma_mod_twice((a % b) as int, g);
            assert(a as int == b as int * q + (a % b) as int);
            assert((0int + (a % b) as int % g) % g == (a % b) as int % g) by {
                vstd::arithmetic::div_mod::lemma_mod_twice((a % b) as int, g);
            }
        }
    }
}

/// The greatest common divisor does not depend on the order of its
/// arguments.
pub proof fn lemma_gcd_comm(a: nat, b: nat)
    ensures
        gcd(a, b) == gcd(b, a),
{
    if a == 0 && b != 0 {
        vstd::arithmetic::div_mod::lemma_small_mod(0, b);
        assert(gcd(a, b) == gcd(b, 0));
    } else if b == 0 && a != 0 {
        vstd::arithmetic::div_mod::lemma_small_mod(0, a);
        assert(gcd(b, a) == gcd(a, 0));
    } else if a != 0 && b != 0 && a < b {
        vstd::arithmetic::div_mod::lemma_small_mod(a, b);
        assert(gcd(a, b) == gcd(b, a % b));
    } else if a != 0 && b != 0 && b < a {
        vstd::arithmetic::div_mod::lemma_small_mod(b, a);
        assert(gcd(b, a) == gcd(a, b % a));
    }
}

/// A common positive factor moves through the greatest common divisor:
/// `gcd(k*a, k*b) == k * gcd(a, b)`.
pub proof fn lemma_gcd_scale(k: nat, a: nat, b: nat)
    requires
        k > 0,
    ensures
        gcd(k * a, k * b) == k * gcd(a, b),
    decreases b,
{
    if b == 0 {
        assert(k * b == 0);
    } else {
        assert(k * b > 0) by (nonlinear_arith)
            requires
                k > 0,
                b > 0,
        ;
        vstd::arithmetic::div_mod::lemma_truncate_middle(a as int, k as int, b as int);
        assert((k * a) % (k * b) == k * (a % b));
        lemma_gcd_scale(k, b, a % b);
        assert(gcd(k * a, k * b) == gcd(k * b, (k * a) % (k * b)));
    }
}

/// Dividing both arguments by their greatest common divisor leaves a pair
/// whose greatest common divisor is one.
pub proof fn lemma_gcd_reduced(a: nat, b: nat)
    requires
        a > 0 || b > 0,
    ensures
        gcd((a as int / gcd(a, b) as int) as nat, (b as int / gcd(a, b) as int) as nat) == 1,
        gcd(a, b) * (a as int / gcd(a, b) as int) == a,
        gcd(a, b) * (b as int / gcd(a, b) as int) == b,
        a as int / gcd(a, b) as int >= 0,
        b as int / gcd(a, b) as int >= 0,
    decreases b,
{
    lemma_gcd_pos(a, b);
    lemma_gcd_divides(a, b);
    let g = gcd(a, b) as int;
    vstd::arithmetic::div_mod::lemma_fundamental_div_mod(a as int, g);
    vstd::arithmetic::div_mod::lemma_fundamental_div_mod(b as int, g);
    vstd::arithmetic::div_mod::lemma_div_pos_is_pos(a as int, g);
    vstd::arithmetic::div_mod::lemma_div_pos_is_pos(b as int, g);
    let ra = (a as int / g) as nat;
    let rb = (b as int / g) as nat;
    assert(g * ra == a);
    assert(g * rb == b);
    lemma_gcd_scale(g as nat, ra, rb);
    assert(g as nat * gcd(ra, rb) == gcd(a, b));
    assert(gcd(ra, rb) == 1) by (nonlinear_arith)
        requires
            g as nat * gcd(ra, rb) == g as nat,
            g > 0,
    ;
}

/// Euclid's algorithm.
pub fn gcd_u64(a: u64, b: u64) -> (g: u64)
    ensures
        g as nat == gcd(a as nat, b as nat),
{
    let mut x = a;
    let mut y = b;
    while y != 0
        invariant
            gcd(x as nat, y as nat) == gcd(a as nat, b as nat),
        decreases y,
    {
        let r = x % y;
        x = y;
        y = r;
    }
    x
}

/// `r` is the integer square root of `n`.
pub open spec fn is_isqrt(n: int, r: int) -> bool {
    r >= 0 && r * r <= n < (r + 1) * (r + 1)
}

/// Every nonnegative integer has an integer square root.
pub proof fn lemma_isqrt_exists(n: int)
    requires
        n >= 0,
    ensures
        exists|r: int| is_isqrt(n, r),
    decreases n,
{
    if n == 0 {
        assert(is_isqrt(0, 0));
    } else {
        lemma_isqrt_exists(n - 1);
        let r = choose|r: int| #[trigger] is_isqrt(n - 1, r);
        if (r + 1) * (r + 1) <= n {
            assert((r + 2) * (r + 2) > (r + 1) * (r + 1)) by (nonlinear_arith)
                requires
                    r >= 0,
            ;
            assert(is_isqrt(n, r + 1));
        } else {
            assert(is_isqrt(n, r));
        }
    }
}

/// The integer square root is unique.
pub proof fn lemma_isqrt_unique(n: int, r1: int, r2: int)
    requires
        is_isqrt(n, r1),
        is_isqrt(n, r2),
    ensures
        r1 == r2,
{
    lemma_isqrt_at_least(n, r1, r2);
    lemma_isqrt_at_least(n, r2, r1);
}

/// The integer square root of `n`: the largest `r` with `r * r <= n`.
pub open spec fn sqrt_floor(n: int) -> int {
    choose|r: int| #[trigger] is_isqrt(n, r)
}

/// [`sqrt_floor`] satisfies its defining property.
pub proof fn lemma_sqrt_floor(n: int)
    requires
        n >= 0,
    ensures
        is_isqrt(n, sqrt_floor(n)),
{
    lemma_isqrt_exists(n);
}

/// Largest admissible argument of [`isqrt_u128`].
pub const ISQRT_MAX: u128 = 1_000_000_000_000_000_000_000_000_000;

/// Integer square root by bisection.
pub fn isqrt_u128(n: u128) -> (r: u64)
    requires
        n <= ISQRT_MAX,
    ensures
        is_isqrt(n as int, r as int),
        r == sqrt_floor(n as int),
{
    let mut lo: u64 = 0;
    let mut hi: u64 = 1u64 << 45;
    proof {
        assert((1u64 << 45) == 0x2000_0000_0000) by (bit_vector);
        assert(0x2000_0000_0000int * 0x2000_0000_0000int > ISQRT_MAX as int);
    }
    while hi - lo > 1
        invariant
            lo < hi,
            hi <= 0x2000_0000_0000,
            lo as int * lo as int <= n as int,
            hi as int * hi as int > n as int,
        decreases hi - lo,
    {
        let mid: u64 = lo + (hi - lo) / 2;
        proof {
            crate::fixp::lemma_mul_le(mid as int, mid as int, 0x2000_0000_0000, 0x2000_0000_0000);
        }
        if (mid as u128) * (mid as u128) <= n {
            lo = mid;
        } else {
            hi = mid;
        }
    }
    proof {
        lemma_sqrt_floor(n as int);
        lemma_isqrt_unique(n as int, lo as int, sqrt_floor(n as int));
    }
    lo
}

/// An integer square root is at least any value whose square stays under the
/// argument.
pub proof fn lemma_isqrt_at_least(n: int, r: int, m: int)
    requires
        is_isqrt(n, r),
        m >= 0,
        m * m <= n,
    ensures
        r >= m,
{
    if r < m {
        assert((r + 1) * (r + 1) <= m * m) by (nonlinear_arith)
            requires
                0 <= r < m,
        ;
    }
}

} // verus!
