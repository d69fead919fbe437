//! Circular functions on micro-degree angles, and the conversions between
//! CIE LAB and its cylindrical form CIE LCH.
//!
//! Sine and cosine use Bhaskara's rational approximation
//! `sin d = 4 d (180 - d) / (40500 - d (180 - d))` on `[0, 180]` degrees,
//! which is exact rational arithmetic here. The hue of a LAB color is
//! recovered by bisecting against the same sine and cosine, so the two
//! directions of the cylindrical conversion agree.

use crate::color::Lab;
use crate::fixed::{
    mul_div_signed, sqrt_u128, spec_sqrt, spec_mul_div_signed, lemma_sqrt_le, UNIT,
};
use crate::hsv::HUE_FULL;
use vstd::prelude::*;
use vstd::arithmetic::div_mod::{lemma_div_is_ordered, lemma_div_multiples_vanish};

verus! {

/// Bhaskara's sine on `[0, 180]` degrees, in micro-degrees and micro-units.
pub open spec fn spec_sin_half(d: int) -> int {
    let p = d * (180000000 - d);
    4 * p * 1000000 / (40500000000000000 - p)
}

/// Sine of an angle in `[0, 360]` degrees (micro-degrees), in micro-units.
pub open spec fn spec_sin_mdeg(t: int) -> int {
    if t <= 180000000 {
        spec_sin_half(t)
    } else {
        -spec_sin_half(t - 180000000)
    }
}

/// Cosine of an angle in `[0, 360]` degrees, as the shifted sine.
pub open spec fn spec_cos_mdeg(t: int) -> int {
    if t + 90000000 <= 360000000 {
        spec_sin_mdeg(t + 90000000)
    } else {
        spec_sin_mdeg(t - 270000000)
    }
}

fn sin_half(d: i64) -> (r: i64)
    requires
        0 <= d <= 180_000_000,
    ensures
        r == spec_sin_half(d as int),
        0 <= r <= UNIT,
{
    proof {
        assert(0 <= (d as int) * (180000000 - d as int) <= 8100000000000000) by (nonlinear_arith)
            requires
                0 <= d <= 180000000,
        ;
    }
    let p: u64 = (d as u64) * (180_000_000 - d as u64);
    let num: u128 = 4 * (p as u128) * 1_000_000;
    let den: u64 = 40_500_000_000_000_000 - p;
    let q: u128 = num / (den as u128);
    proof {
        lemma_div_is_ordered(num as int, (den as int) * 1000000, den as int);
        lemma_div_multiples_vanish(1000000, den as int);
    }
    q as i64
}

/// Sine on micro-degree angles.
pub fn sin_mdeg(t: i64) -> (r: i64)
    requires
        0 <= t <= HUE_FULL,
    ensures
        r == spec_sin_mdeg(t as int),
        -UNIT <= r <= UNIT,
{
    if t <= 180_000_000 {
        sin_half(t)
    } else {
        -sin_half(t - 180_000_000)
    }
}

/// Cosine on micro-degree angles.
pub fn cos_mdeg(t: i64) -> (r: i64)
    requires
        0 <= t <= HUE_FULL,
    ensures
        r == spec_cos_mdeg(t as int),
        -UNIT <= r <= UNIT,
{
    if t + 90_000_000 <= 360_000_000 {
        sin_mdeg(t + 90_000_000)
    } else {
        sin_mdeg(t - 270_000_000)
    }
}

/// The chroma of a LAB color: the floor root of `a^2 + b^2`.
pub open spec fn spec_lab_chroma(a: int, b: int) -> int {
    spec_sqrt(a * a + b * b)
}

/// Chroma of a LAB color.
pub fn lab_chroma(a: i64, b: i64) -> (r: i64)
    requires
        -1_000_000_000 <= a <= 1_000_000_000,
        -1_000_000_000 <= b <= 1_000_000_000,
    ensures
        r == spec_lab_chroma(a as int, b as int),
        0 <= r <= 1_500_000_000,
{
    proof {
        assert(0 <= (a as int) * (a as int) <= 1000000000000000000 && 0 <= (b as int) * (b as int)
            <= 1000000000000000000) by (nonlinear_arith)
            requires
                -1000000000 <= a <= 1000000000 && -1000000000 <= b <= 1000000000,
        ;
    }
    let aa: u128 = ((a as i128) * (a as i128)) as u128;
    let bb: u128 = ((b as i128) * (b as i128)) as u128;
    let r = sqrt_u128(aa + bb);
    proof {
        lemma_sqrt_le(r as int, (aa + bb) as int, 1500000000);
    }
    r as i64
}

/// The sine and cosine values at the corners of the first quadrant.
pub proof fn lemma_circle_corners()
    ensures
        spec_sin_mdeg(0) == 0,
        spec_cos_mdeg(0) == 1000000,
        spec_sin_mdeg(90000000) == 1000000,
        spec_cos_mdeg(90000000) == 0,
{
    assert(0int * (180000000 - 0) == 0) by (nonlinear_arith);
    assert(4int * 0 * 1000000 == 0) by (nonlinear_arith);
    lemma_div_multiples_vanish(0, 40500000000000000);
    assert(40500000000000000int * 0 == 0) by (nonlinear_arith);
    assert(spec_sin_half(0) == 0);
    assert(90000000int * (180000000 - 90000000) == 8100000000000000) by (nonlinear_arith);
    assert(4int * 8100000000000000 * 1000000 == 32400000000000000000000) by (nonlinear_arith);
    assert(32400000000000000int * 1000000 == 32400000000000000000000) by (nonlinear_arith);
    lemma_div_multiples_vanish(1000000, 32400000000000000);
    assert(spec_sin_half(90000000) == 1000000);
    assert(180000000int * (180000000 - 180000000) == 0) by (nonlinear_arith);
    assert(spec_sin_half(180000000) == 0);
}

/// The angle `t` is at or below the direction of the first-quadrant vector
/// `(adj, opp)`, measured against the library's own sine and cosine.
pub open spec fn spec_hue_below(adj: int, opp: int, t: int) -> bool {
    adj * spec_sin_mdeg(t) <= opp * spec_cos_mdeg(t)
}

/// `t` is the first-quadrant hue of the vector `(adj, opp)`: the angle where
/// the approximated tangent crosses `opp / adj`.
pub open spec fn spec_quad_hue_ok(adj: int, opp: int, t: int) -> bool {
    if opp == 0 {
        t == 0
    } else if adj == 0 {
        t == 90000000
    } else {
        0 <= t < 90000000 && spec_hue_below(adj, opp, t) && !spec_hue_below(adj, opp, t + 1)
    }
}

fn quad_hue(adj: i64, opp: i64) -> (t: i64)
    requires
        0 <= adj <= 1_500_000_000,
        0 <= opp <= 1_500_000_000,
    ensures
        spec_quad_hue_ok(adj as int, opp as int, t as int),
        0 <= t <= 90_000_000,
{
    if opp == 0 {
        return 0;
    }
    if adj == 0 {
        return 90_000_000;
    }
    let mut lo: i64 = 0;
    let mut hi: i64 = 90_000_000;
    proof {
        lemma_circle_corners();
        assert(opp * 1000000 > 0 && adj * 1000000 > 0 && opp * 0 == 0 && adj * 0 == 0)
            by (nonlinear_arith)
            requires
                adj >= 1 && opp >= 1,
        ;
    }
    while lo + 1 < hi
        invariant
            0 <= lo < hi <= 90_000_000,
            1 <= adj <= 1_500_000_000,
            1 <= opp <= 1_500_000_000,
            spec_hue_below(adj as int, opp as int, lo as int),
            !spec_hue_below(adj as int, opp as int, hi as int),
        decreases hi - lo,
    {
        let mid: i64 = lo + (hi - lo) / 2;
        let s = sin_mdeg(mid);
        let c = cos_mdeg(mid);
        proof {
            assert(-2000000000000000 <= (adj as int) * (s as int) <= 2000000000000000
                && -2000000000000000 <= (opp as int) * (c as int) <= 2000000000000000)
                by (nonlinear_arith)
                requires
                    1 <= adj <= 1500000000 && 1 <= opp <= 1500000000 && -1000000 <= s <= 1000000
                        && -1000000 <= c <= 1000000,
            ;
        }
        if (adj as i128) * (s as i128) <= (opp as i128) * (c as i128) {
            lo = mid;
        } else {
            hi = mid;
        }
    }
    lo
}

/// `h` is the hue of the LAB chromatic vector `(a, b)`: the first-quadrant
/// hue of the magnitudes, reflected into the right quadrant.
pub open spec fn spec_lab_hue_ok(a: int, b: int, h: int) -> bool {
    if a >= 0 && b >= 0 {
        spec_quad_hue_ok(a, b, h)
    } else if a < 0 && b >= 0 {
        spec_quad_hue_ok(-a, b, 180000000 - h)
    } else if a < 0 && b < 0 {
        spec_quad_hue_ok(-a, -b, h - 180000000)
    } else {
        spec_quad_hue_ok(a, -b, 360000000 - h)
    }
}

/// Hue of a LAB color in micro-degrees (0 for achromatic colors).
pub fn lab_hue(a: i64, b: i64) -> (h: i64)
    requires
        -1_000_000_000 <= a <= 1_000_000_000,
        -1_000_000_000 <= b <= 1_000_000_000,
    ensures
        spec_lab_hue_ok(a as int, b as int, h as int),
        0 <= h <= HUE_FULL,
{
    if a >= 0 && b >= 0 {
        quad_hue(a, b)
    } else if a < 0 && b >= 0 {
        180_000_000 - quad_hue(-a, b)
    } else if a < 0 && b < 0 {
        180_000_000 + quad_hue(-a, -b)
    } else {
        360_000_000 - quad_hue(a, -b)
    }
}

/// a of a LAB color from chroma and hue: `chroma * cos(hue)`.
pub open spec fn spec_lch_a(c: int, h: int) -> int {
    spec_mul_div_signed(c, spec_cos_mdeg(h), 1000000)
}

/// b of a LAB color from chroma and hue: `chroma * sin(hue)`.
pub open spec fn spec_lch_b(c: int, h: int) -> int {
    spec_mul_div_signed(c, spec_sin_mdeg(h), 1000000)
}

/// LCH (lightness, chroma, hue) to LAB, for controls within their ranges.
pub fn lch_to_lab(l: i64, c: i64, h: i64) -> (o: Lab)
    requires
        0 <= l <= 100 * UNIT,
        0 <= c <= 128 * UNIT,
        0 <= h <= HUE_FULL,
    ensures
        o.l == l,
        o.a == spec_lch_a(c as int, h as int),
        o.b == spec_lch_b(c as int, h as int),
        -128 * UNIT <= o.a <= 128 * UNIT,
        -128 * UNIT <= o.b <= 128 * UNIT,
{
    let cs = cos_mdeg(h);
    let sn = sin_mdeg(h);
    proof {
        assert(-128000000 * 1000000 <= (c as int) * (cs as int) <= 128000000 * 1000000
            && -128000000 * 1000000 <= (c as int) * (sn as int) <= 128000000 * 1000000)
            by (nonlinear_arith)
            requires
                0 <= c <= 128000000 && -1000000 <= cs <= 1000000 && -1000000 <= sn <= 1000000,
        ;
        lemma_div_is_ordered(128000000int * 1000000, 128000001int * 1000000, 1000000);
        lemma_div_multiples_vanish(128000001, 1000000);
        lemma_div_is_ordered(
            if (c as int) * (cs as int) >= 0 {
                (c as int) * (cs as int)
            } else {
                -((c as int) * (cs as int))
            },
            128000000int * 1000000,
            1000000,
        );
        lemma_div_is_ordered(
            if (c as int) * (sn as int) >= 0 {
                (c as int) * (sn as int)
            } else {
                -((c as int) * (sn as int))
            },
            128000000int * 1000000,
            1000000,
        );
        lemma_div_multiples_vanish(128000000, 1000000);
    }
    let a = mul_div_signed(c, cs, UNIT);
    let b = mul_div_signed(c, sn, UNIT);
    Lab { l, a, b }
}

} // verus!
