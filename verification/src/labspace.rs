//! The CIE LAB companding function and the conversions between CIE XYZ and
//! CIE LAB, on micro-unit coordinates with the D65 white point.

use crate::color::{Lab, Xyz};
use crate::fixed::{
    clamp, div_euclid_pos, mul_div, mul_div_signed, cbrt_u128, spec_clamp, spec_cbrt,
    spec_mul_div_signed, lemma_cbrt_le, UNIT,
};
use vstd::prelude::*;
use vstd::arithmetic::div_mod::lemma_div_is_ordered;

verus! {

/// X of the D65 white point, in micro-units (0.95047).
pub const WHITE_X: i64 = 950_470;

/// Z of the D65 white point, in micro-units (1.08883).
pub const WHITE_Z: i64 = 1_088_830;

/// The LAB companding threshold `(6/29)^3` in micro-units, floored.
pub const LAB_EPS: i64 = 8_856;

/// The companded threshold `6/29` in micro-units, floored.
pub const LAB_DELTA: i64 = 206_896;

/// The LAB companding function `f`: the cube root above `(6/29)^3`, the
/// linear continuation `t / (3 * (6/29)^2) + 4/29` below it.
pub open spec fn spec_lab_f(t: int) -> int {
    if t <= 8856 {
        t * 841 / 108 + 137931
    } else {
        spec_cbrt(t * 1000000000000)
    }
}

pub fn lab_f(t: i64) -> (r: i64)
    requires
        0 <= t <= 4 * UNIT,
    ensures
        r == spec_lab_f(t as int),
        0 <= r <= 1_600_000,
{
    if t <= LAB_EPS {
        let r = mul_div(t as u64, 841, 108);
        proof {
            lemma_div_is_ordered(t * 841, 8856int * 841, 108);
        }
        (r as i64) + 137_931
    } else {
        let c = cbrt_u128((t as u128) * 1_000_000_000_000);
        proof {
            lemma_cbrt_le(c as int, t * 1000000000000, 1600000);
        }
        c as i64
    }
}

/// The inverse companding function: the cube above `6/29`, the inverse of
/// the linear continuation below it. May be negative for companded values
/// below `4/29`.
pub open spec fn spec_lab_finv(t: int) -> int {
    if t > 206896 {
        t * t * t / 1000000000000
    } else {
        spec_mul_div_signed(t - 137931, 108, 841)
    }
}

pub fn lab_finv(t: i64) -> (r: i64)
    requires
        -2 * UNIT <= t <= 2 * UNIT,
    ensures
        r == spec_lab_finv(t as int),
        -2 * UNIT <= r <= 8 * UNIT,
{
    if t > LAB_DELTA {
        proof {
            assert(0 <= (t as int) * (t as int) <= 2000000 * 2000000 && (t as int) * (t as int) * (
            t as int) <= 2000000 * 2000000 * 2000000 && 0 <= (t as int) * (t as int) * (t as int))
                by (nonlinear_arith)
                requires
                    0 < t <= 2000000,
            ;
        }
        let cube: u128 = (t as u128) * (t as u128) * (t as u128);
        proof {
            lemma_div_is_ordered(t * t * t, 2000000int * 2000000 * 2000000, 1000000000000);
        }
        (cube / 1_000_000_000_000) as i64
    } else {
        mul_div_signed(t - 137_931, 108, 841)
    }
}

/// L of the LAB image of an XYZ color (Y of white is `UNIT`).
pub open spec fn spec_xyz_lab_l(y: int) -> int {
    spec_clamp(116 * spec_lab_f(y) - 16000000, 0, 200000000)
}

/// a of the LAB image of an XYZ color.
pub open spec fn spec_xyz_lab_a(x: int, y: int) -> int {
    500 * (spec_lab_f(x * 1000000 / 950470) - spec_lab_f(y))
}

/// b of the LAB image of an XYZ color.
pub open spec fn spec_xyz_lab_b(y: int, z: int) -> int {
    200 * (spec_lab_f(y) - spec_lab_f(z * 1000000 / 1088830))
}

/// CIE XYZ to CIE LAB.
pub fn xyz_to_lab(o: &Xyz) -> (c: Lab)
    requires
        o.wf(),
    ensures
        c.l == spec_xyz_lab_l(o.y as int),
        c.a == spec_xyz_lab_a(o.x as int, o.y as int),
        c.b == spec_xyz_lab_b(o.y as int, o.z as int),
        c.wf(),
{
    let tx = mul_div(o.x as u64, 1_000_000, 950_470);
    let tz = mul_div(o.z as u64, 1_000_000, 1_088_830);
    proof {
        lemma_div_is_ordered(o.x * 1000000, 3000000int * 1000000, 950470);
        lemma_div_is_ordered(o.z * 1000000, 3000000int * 1000000, 1088830);
    }
    let fx = lab_f(tx as i64);
    let fy = lab_f(o.y);
    let fz = lab_f(tz as i64);
    let l = clamp(116 * fy - 16_000_000, 0, 200_000_000);
    let a = 500 * (fx - fy);
    let b = 200 * (fy - fz);
    Lab { l, a, b }
}

/// The companded `f`-coordinates of a LAB color: `fy = (L + 16) / 116`,
/// `fx = fy + a / 500`, `fz = fy - b / 200` (floor divisions).
pub open spec fn spec_lab_fy(l: int) -> int {
    (l + 16000000) / 116
}

pub open spec fn spec_lab_fx(l: int, a: int) -> int {
    spec_lab_fy(l) + a / 500
}

pub open spec fn spec_lab_fz(l: int, b: int) -> int {
    spec_lab_fy(l) - b / 200
}

/// X of the XYZ image of a LAB color, saturated into the working range.
pub open spec fn spec_lab_xyz_x(l: int, a: int) -> int {
    spec_clamp(spec_mul_div_signed(spec_lab_finv(spec_lab_fx(l, a)), 950470, 1000000), 0, 3000000)
}

/// Y of the XYZ image of a LAB color, saturated into the working range.
pub open spec fn spec_lab_xyz_y(l: int) -> int {
    spec_clamp(spec_lab_finv(spec_lab_fy(l)), 0, 3000000)
}

/// Z of the XYZ image of a LAB color, saturated into the working range.
pub open spec fn spec_lab_xyz_z(l: int, b: int) -> int {
    spec_clamp(spec_mul_div_signed(spec_lab_finv(spec_lab_fz(l, b)), 1088830, 1000000), 0, 3000000)
}

/// CIE LAB to CIE XYZ, for LAB coordinates within the control ranges
/// (`L` in `[0, 100]`, `a` and `b` in `[-128, 128]`).
pub fn lab_to_xyz(c: &Lab) -> (o: Xyz)
    requires
        0 <= c.l <= 100 * UNIT,
        -128 * UNIT <= c.a <= 128 * UNIT,
        -128 * UNIT <= c.b <= 128 * UNIT,
    ensures
        o.x == spec_lab_xyz_x(c.l as int, c.a as int),
        o.y == spec_lab_xyz_y(c.l as int),
        o.z == spec_lab_xyz_z(c.l as int, c.b as int),
        o.wf(),
{
    let fy: i64 = ((c.l as u64 + 16_000_000) / 116) as i64;
    let fx: i64 = fy + div_euclid_pos(c.a, 500);
    let fz: i64 = fy - div_euclid_pos(c.b, 200);
    proof {
        lemma_div_is_ordered(c.l + 16000000, 116000000int, 116);
        lemma_div_is_ordered(-128000000int, c.a as int, 500);
        lemma_div_is_ordered(c.a as int, 128000000int, 500);
        lemma_div_is_ordered(-128000000int, c.b as int, 200);
        lemma_div_is_ordered(c.b as int, 128000000int, 200);
    }
    let ix = lab_finv(fx);
    let iy = lab_finv(fy);
    let iz = lab_finv(fz);
    let x = clamp(mul_div_signed(ix, 950_470, 1_000_000), 0, 3_000_000);
    let y = clamp(iy, 0, 3_000_000);
    let z = clamp(mul_div_signed(iz, 1_088_830, 1_000_000), 0, 3_000_000);
    Xyz { x, y, z }
}

} // verus!
