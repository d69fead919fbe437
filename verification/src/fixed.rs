//! Fixed-point primitives: the micro-unit scale, clamping, scaled
//! multiplication and division, and floor roots by binary search.

use vstd::prelude::*;

verus! {

/// One unit (the real number 1.0) in the library's fixed-point scale.
pub const UNIT: i64 = 1_000_000;

/// `v` forced into the interval `[lo, hi]`.
pub open spec fn spec_clamp(v: int, lo: int, hi: int) -> int {
    if v < lo {
        lo
    } else if v > hi {
        hi
    } else {
        v
    }
}

pub fn clamp(v: i64, lo: i64, hi: i64) -> (r: i64)
    requires
        lo <= hi,
    ensures
        r == spec_clamp(v as int, lo as int, hi as int),
{
    if v < lo {
        lo
    } else if v > hi {
        hi
    } else {
        v
    }
}

/// Floor of `a * b / d` on non-negative operands.
pub open spec fn spec_mul_div(a: int, b: int, d: int) -> int {
    a * b / d
}

pub fn mul_div(a: u64, b: u64, d: u64) -> (r: u64)
    requires
        d > 0,
        a * b / (d as int) <= u64::MAX,
    ensures
        r == spec_mul_div(a as int, b as int, d as int),
{
    proof {
        assert((a as int) * (b as int) <= u128::MAX) by (nonlinear_arith)
            requires
                a <= u64::MAX && b <= u64::MAX,
        ;
    }
    let p: u128 = (a as u128) * (b as u128);
    (p / (d as u128)) as u64
}

/// `a * b / d` rounded toward zero, for signed `a` and `b` and positive `d`.
pub open spec fn spec_mul_div_signed(a: int, b: int, d: int) -> int {
    let p = a * b;
    if p >= 0 {
        p / d
    } else {
        -((-p) / d)
    }
}

pub fn mul_div_signed(a: i64, b: i64, d: i64) -> (r: i64)
    requires
        d > 0,
        -0x7fff_ffff_ffff_ffff <= spec_mul_div_signed(a as int, b as int, d as int)
            <= 0x7fff_ffff_ffff_ffff,
    ensures
        r == spec_mul_div_signed(a as int, b as int, d as int),
{
    proof {
        assert(-0x4000_0000_0000_0000_0000_0000_0000_0000 <= (a as int) * (b as int)
            <= 0x4000_0000_0000_0000_0000_0000_0000_0000) by (nonlinear_arith)
            requires
                i64::MIN <= a <= i64::MAX && i64::MIN <= b <= i64::MAX,
        ;
    }
    let p: i128 = (a as i128) * (b as i128);
    if p >= 0 {
        let q: u128 = (p as u128) / (d as u128);
        q as i64
    } else {
        let q: u128 = ((-p) as u128) / (d as u128);
        -(q as i64)
    }
}

/// Euclidean quotient `a / d` for a positive divisor (floor division).
pub fn div_euclid_pos(a: i64, d: i64) -> (r: i64)
    requires
        d > 0,
    ensures
        r == a as int / d as int,
{
    if a >= 0 {
        ((a as u64) / (d as u64)) as i64
    } else {
        let m: u64 = (-(a as i128)) as u64;
        let du: u64 = d as u64;
        let q: u64 = m / du;
        let rem: u64 = m % du;
        proof {
            vstd::arithmetic::div_mod::lemma_fundamental_div_mod(m as int, du as int);
            assert(q <= m) by (nonlinear_arith)
                requires
                    q * du + rem == m && du >= 1 && q >= 0 && rem >= 0,
            ;
        }
        if rem == 0 {
            proof {
                assert(a as int == (-(q as int)) * (d as int) + 0) by (nonlinear_arith)
                    requires
                        q * du + rem == m && rem == 0 && a as int == -(m as int) && du == d,
                ;
                vstd::arithmetic::div_mod::lemma_fundamental_div_mod_converse(
                    a as int,
                    d as int,
                    -(q as int),
                    0,
                );
            }
            (-(q as i128)) as i64
        } else {
            proof {
                assert(q <= 0x7fff_ffff_ffff_ffff) by (nonlinear_arith)
                    requires
                        q * du + rem == m && du >= 1 && rem >= 1 && m <= 0x8000_0000_0000_0000,
                ;
                assert(a as int == (-(q as int) - 1) * (d as int) + (d - rem)) by (nonlinear_arith)
                    requires
                        q * du + rem == m && a as int == -(m as int) && du == d,
                ;
                vstd::arithmetic::div_mod::lemma_fundamental_div_mod_converse(
                    a as int,
                    d as int,
                    -(q as int) - 1,
                    d - rem,
                );
            }
            ((-(q as i128)) - 1) as i64
        }
    }
}

/// Products of non-negative factors are ordered by their factors.
pub proof fn lemma_mul_le(a: int, b: int, x: int, y: int)
    by (nonlinear_arith)
    requires
        0 <= a <= x,
        0 <= b <= y,
    ensures
        a * b <= x * y,
{
}

/// A scaled product of bounded non-negative factors is bounded by the scaled
/// product of the bounds.
pub proof fn lemma_mul_div_le(a: int, b: int, x: int, y: int, d: int)
    requires
        0 <= a <= x,
        0 <= b <= y,
        0 < d,
    ensures
        a * b / d <= x * y / d,
{
    lemma_mul_le(a, b, x, y);
    vstd::arithmetic::div_mod::lemma_div_is_ordered(a * b, x * y, d);
}

/// A square root is bounded by the root of any bound on its square.
pub proof fn lemma_sqrt_le(r: int, x: int, b: int)
    by (nonlinear_arith)
    requires
        0 <= r,
        0 <= b,
        r * r <= x,
        x <= b * b,
    ensures
        r <= b,
{
}

/// A cube root is bounded by the root of any bound on its cube.
pub proof fn lemma_cbrt_le(r: int, x: int, b: int)
    by (nonlinear_arith)
    requires
        0 <= r,
        0 <= b,
        r * r * r <= x,
        x <= b * b * b,
    ensures
        r <= b,
{
}

/// A fifth root is bounded by the root of any bound on its fifth power.
pub proof fn lemma_root5_le(r: int, x: int, b: int)
    by (nonlinear_arith)
    requires
        0 <= r,
        0 <= b,
        r * r * r * r * r <= x,
        x <= b * b * b * b * b,
    ensures
        r <= b,
{
}

/// `r` is the floor square root of `x`.
pub open spec fn is_floor_sqrt(x: int, r: int) -> bool {
    0 <= r && r * r <= x && x < (r + 1) * (r + 1)
}

/// The floor square root of a non-negative `x`.
pub open spec fn spec_sqrt(x: int) -> int {
    choose|r: int| is_floor_sqrt(x, r)
}

pub proof fn lemma_sqrt_unique(x: int, r1: int, r2: int)
    by (nonlinear_arith)
    requires
        is_floor_sqrt(x, r1),
        is_floor_sqrt(x, r2),
    ensures
        r1 == r2,
{
}

/// `r` is the floor cube root of `x`.
pub open spec fn is_floor_cbrt(x: int, r: int) -> bool {
    0 <= r && r * r * r <= x && x < (r + 1) * (r + 1) * (r + 1)
}

/// The floor cube root of a non-negative `x`.
pub open spec fn spec_cbrt(x: int) -> int {
    choose|r: int| is_floor_cbrt(x, r)
}

pub proof fn lemma_cbrt_unique(x: int, r1: int, r2: int)
    by (nonlinear_arith)
    requires
        is_floor_cbrt(x, r1),
        is_floor_cbrt(x, r2),
    ensures
        r1 == r2,
{
}

/// `r` is the floor fifth root of `x`.
pub open spec fn is_floor_root5(x: int, r: int) -> bool {
    0 <= r && r * r * r * r * r <= x && x < (r + 1) * (r + 1) * (r + 1) * (r + 1) * (r + 1)
}

/// The floor fifth root of a non-negative `x`.
pub open spec fn spec_root5(x: int) -> int {
    choose|r: int| is_floor_root5(x, r)
}

pub proof fn lemma_root5_unique(x: int, r1: int, r2: int)
    by (nonlinear_arith)
    requires
        is_floor_root5(x, r1),
        is_floor_root5(x, r2),
    ensures
        r1 == r2,
{
}

/// Floor square root: the unique `r` with `r * r <= x < (r + 1) * (r + 1)`.
pub fn sqrt_u128(x: u128) -> (r: u128)
    requires
        x < 0x1_0000_0000_0000_0000_0000_0000_0000_00,
    ensures
        r == spec_sqrt(x as int),
        r * r <= x,
        (r + 1) * (r + 1) > x,
        r < 0x1000_0000_0000_0000,
{
    let mut lo: u128 = 0;
    let mut hi: u128 = 0x1000_0000_0000_0000;
    assert(hi * hi > x);
    while lo + 1 < hi
        invariant
            lo < hi <= 0x1000_0000_0000_0000,
            lo * lo <= x,
            hi * hi > x,
        decreases hi - lo,
    {
        let mid: u128 = lo + (hi - lo) / 2;
        proof {
            assert(mid * mid < 0x1_0000_0000_0000_0000_0000_0000_0000_00) by (nonlinear_arith)
                requires
                    mid < 0x1000_0000_0000_0000,
            ;
        }
        if mid * mid <= x {
            lo = mid;
        } else {
            hi = mid;
        }
    }
    proof {
        assert(is_floor_sqrt(x as int, lo as int));
        lemma_sqrt_unique(x as int, lo as int, spec_sqrt(x as int));
    }
    lo
}

/// Floor cube root: the unique `r` with `r^3 <= x < (r + 1)^3`.
pub fn cbrt_u128(x: u128) -> (r: u128)
    requires
        x < 0x1_0000_0000_0000_0000_0000_0000_0000_00,
    ensures
        r == spec_cbrt(x as int),
        r * r * r <= x,
        (r + 1) * (r + 1) * (r + 1) > x,
        r < 0x100_0000_0000,
{
    let mut lo: u128 = 0;
    let mut hi: u128 = 0x100_0000_0000;
    assert(hi * hi * hi > x);
    while lo + 1 < hi
        invariant
            lo < hi <= 0x100_0000_0000,
            lo * lo * lo <= x,
            hi * hi * hi > x,
        decreases hi - lo,
    {
        let mid: u128 = lo + (hi - lo) / 2;
        proof {
            assert(mid * mid < 0x1_0000_0000_0000_0000_0000_0000_0000_00 && mid * mid * mid
                < 0x1_0000_0000_0000_0000_0000_0000_0000_00) by (nonlinear_arith)
                requires
                    mid < 0x100_0000_0000,
            ;
        }
        if mid * mid * mid <= x {
            lo = mid;
        } else {
            hi = mid;
        }
    }
    proof {
        assert(is_floor_cbrt(x as int, lo as int));
        lemma_cbrt_unique(x as int, lo as int, spec_cbrt(x as int));
    }
    lo
}

/// Floor fifth root: the unique `r` with `r^5 <= x < (r + 1)^5`.
pub fn root5_u128(x: u128) -> (r: u128)
    requires
        x < 0x1_0000_0000_0000_0000_0000_0000_0000_00,
    ensures
        r == spec_root5(x as int),
        r * r * r * r * r <= x,
        (r + 1) * (r + 1) * (r + 1) * (r + 1) * (r + 1) > x,
        r < 0x100_0000,
{
    let mut lo: u128 = 0;
    let mut hi: u128 = 0x100_0000;
    assert(hi * hi * hi * hi * hi > x);
    while lo + 1 < hi
        invariant
            lo < hi <= 0x100_0000,
            lo * lo * lo * lo * lo <= x,
            hi * hi * hi * hi * hi > x,
        decreases hi - lo,
    {
        let mid: u128 = lo + (hi - lo) / 2;
        proof {
            assert(mid * mid < 0x1_0000_0000_0000_0000_0000_0000_0000_00 && mid * mid * mid
                < 0x1_0000_0000_0000_0000_0000_0000_0000_00 && mid * mid * mid * mid
                < 0x1_0000_0000_0000_0000_0000_0000_0000_00 && mid * mid * mid * mid * mid
                < 0x1_0000_0000_0000_0000_0000_0000_0000_00) by (nonlinear_arith)
                requires
                    mid < 0x100_0000,
            ;
        }
        if mid * mid * mid * mid * mid <= x {
            lo = mid;
        } else {
            hi = mid;
        }
    }
    proof {
        assert(is_floor_root5(x as int, lo as int));
        lemma_root5_unique(x as int, lo as int, spec_root5(x as int));
    }
    lo
}

} // verus!
