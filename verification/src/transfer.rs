//! The sRGB transfer function (encoding gamma) and the linear-RGB / CIE XYZ
//! matrices, on micro-unit channels.
//!
//! The non-linear part of the transfer function is the real power 2.4 and its
//! inverse 5/12; both are evaluated exactly as floor roots of integer powers:
//! `x^(12/5) = x^2 * (x^(1/5))^2` and `x^(5/12) = x^(1/3) * (x^(1/3))^(1/4)`.

use crate::fixed::{
    clamp, mul_div, root5_u128, cbrt_u128, sqrt_u128, spec_clamp, spec_sqrt, spec_cbrt,
    spec_root5, lemma_mul_le, lemma_sqrt_le, lemma_cbrt_le, lemma_root5_le, UNIT,
};
use vstd::prelude::*;
use vstd::arithmetic::div_mod::lemma_div_is_ordered;

verus! {

/// The sRGB encoded-domain knee, 0.04045 in micro-units.
pub const SRGB_KNEE: i64 = 40_450;

/// The linear-domain knee matching `SRGB_KNEE` (0.04045 / 12.92, floored).
pub const LINEAR_KNEE: i64 = 3_131;

/// The sRGB transfer function: an encoded channel in `[0, UNIT]` to its
/// linear intensity in `[0, UNIT]`. Below the knee the curve is
/// `s / 12.92 = s * 25 / 323`; above it, `((s + 0.055) / 1.055)^2.4`.
pub open spec fn spec_gamma_to_linear(s: int) -> int {
    if s <= 40450 {
        s * 25 / 323
    } else {
        let b = (s + 55000) * 1000000 / 1055000;
        let t5 = spec_root5(b * 1000000000000000000000000);
        let x25 = t5 * t5 / 1000000;
        spec_clamp(b * b * x25 / 1000000000000, 0, 1000000)
    }
}

/// The inverse sRGB transfer function: a linear intensity in `[0, UNIT]` to
/// the encoded channel, `l * 12.92` below the knee and
/// `1.055 * l^(5/12) - 0.055` above it.
pub open spec fn spec_linear_to_gamma(l: int) -> int {
    if l <= 3131 {
        l * 323 / 25
    } else {
        let c = spec_cbrt(l * 1000000000000);
        let q = spec_sqrt(spec_sqrt(c * 1000000000000000000));
        let v = c * q / 1000000;
        spec_clamp(1055 * v / 1000 - 55000, 0, 1000000)
    }
}

pub fn gamma_to_linear(s: i64) -> (r: i64)
    requires
        0 <= s <= UNIT,
    ensures
        r == spec_gamma_to_linear(s as int),
        0 <= r <= UNIT,
{
    if s <= SRGB_KNEE {
        let r = mul_div(s as u64, 25, 323);
        proof {
            lemma_div_is_ordered(s * 25, 40450int * 25, 323);
        }
        r as i64
    } else {
        let b: u64 = mul_div((s + 55_000) as u64, 1_000_000, 1_055_000);
        proof {
            lemma_div_is_ordered((s + 55000) * 1000000, 1055000int * 1000000, 1055000);
        }
        let t5: u128 = root5_u128((b as u128) * 1_000_000_000_000_000_000_000_000);
        proof {
            lemma_root5_le(t5 as int, b * 1000000000000000000000000, 1000000);
            lemma_mul_le(t5 as int, t5 as int, 1000000, 1000000);
        }
        let x25: u128 = t5 * t5 / 1_000_000;
        proof {
            lemma_div_is_ordered(t5 * t5, 1000000000000, 1000000);
            lemma_mul_le(b as int, b as int, 1000000, 1000000);
            lemma_mul_le(b * b, x25 as int, 1000000000000, 1000000);
            lemma_div_is_ordered(b * b * x25, 1000000000000000000, 1000000000000);
        }
        let raw: u128 = (b as u128) * (b as u128) * x25 / 1_000_000_000_000;
        let r = clamp(raw as i64, 0, UNIT);
        r
    }
}

pub fn linear_to_gamma(l: i64) -> (r: i64)
    requires
        0 <= l <= UNIT,
    ensures
        r == spec_linear_to_gamma(l as int),
        0 <= r <= UNIT,
{
    if l <= LINEAR_KNEE {
        let r = mul_div(l as u64, 323, 25);
        proof {
            lemma_div_is_ordered(l * 323, 3131int * 323, 25);
        }
        r as i64
    } else {
        let c: u128 = cbrt_u128((l as u128) * 1_000_000_000_000);
        proof {
            lemma_cbrt_le(c as int, l * 1000000000000, 1000000);
        }
        let s1: u128 = sqrt_u128(c * 1_000_000_000_000_000_000);
        proof {
            lemma_sqrt_le(s1 as int, c * 1000000000000000000, 1000000000000);
        }
        let q: u128 = sqrt_u128(s1);
        proof {
            lemma_sqrt_le(q as int, s1 as int, 1000000);
            lemma_mul_le(c as int, q as int, 1000000, 1000000);
            lemma_div_is_ordered(c * q, 1000000000000, 1000000);
        }
        let v: u128 = c * q / 1_000_000;
        proof {
            lemma_div_is_ordered(1055 * v, 1055int * 1000000, 1000);
        }
        let enc: u128 = 1_055 * v / 1_000;
        let r = if enc <= 55_000 {
            0i64
        } else {
            clamp((enc - 55_000) as i64, 0, UNIT)
        };
        r
    }
}

/// Row of the sRGB-to-XYZ matrix: the weighted sum of linear channels with
/// non-negative coefficients scaled by 10^7, floored back to micro-units.
pub open spec fn spec_xyz_row(c1: int, c2: int, c3: int, r: int, g: int, b: int) -> int {
    (c1 * r + c2 * g + c3 * b) / 10000000
}

fn xyz_row(c1: u64, c2: u64, c3: u64, r: i64, g: i64, b: i64) -> (o: i64)
    requires
        c1 <= 10000000 && c2 <= 10000000 && c3 <= 10000000,
        0 <= r <= UNIT && 0 <= g <= UNIT && 0 <= b <= UNIT,
    ensures
        o == spec_xyz_row(c1 as int, c2 as int, c3 as int, r as int, g as int, b as int),
        0 <= o <= 3 * UNIT,
{
    proof {
        assert((c1 as int) * (r as int) <= 10000000 * 1000000 && (c2 as int) * (g as int)
            <= 10000000 * 1000000 && (c3 as int) * (b as int) <= 10000000 * 1000000 && 0 <= (
        c1 as int) * (r as int) && 0 <= (c2 as int) * (g as int) && 0 <= (c3 as int) * (b as int))
            by (nonlinear_arith)
            requires
                c1 <= 10000000 && c2 <= 10000000 && c3 <= 10000000 && 0 <= r <= 1000000 && 0 <= g
                    <= 1000000 && 0 <= b <= 1000000,
        ;
    }
    let s: u128 = (c1 as u128) * (r as u128) + (c2 as u128) * (g as u128) + (c3 as u128) * (
    b as u128);
    proof {
        lemma_div_is_ordered(s as int, 3int * 10000000 * 1000000, 10000000);
    }
    (s / 10_000_000) as i64
}

/// X coordinate of CIE XYZ for linear sRGB channels (D65 white).
pub open spec fn spec_rgb_to_x(r: int, g: int, b: int) -> int {
    spec_xyz_row(4124564, 3575761, 1804375, r, g, b)
}

/// Y coordinate of CIE XYZ for linear sRGB channels (D65 white).
pub open spec fn spec_rgb_to_y(r: int, g: int, b: int) -> int {
    spec_xyz_row(2126729, 7151522, 721750, r, g, b)
}

/// Z coordinate of CIE XYZ for linear sRGB channels (D65 white).
pub open spec fn spec_rgb_to_z(r: int, g: int, b: int) -> int {
    spec_xyz_row(193339, 1191920, 9503041, r, g, b)
}

pub fn rgb_to_x(r: i64, g: i64, b: i64) -> (o: i64)
    requires
        0 <= r <= UNIT && 0 <= g <= UNIT && 0 <= b <= UNIT,
    ensures
        o == spec_rgb_to_x(r as int, g as int, b as int),
        0 <= o <= 3 * UNIT,
{
    xyz_row(4124564, 3575761, 1804375, r, g, b)
}

pub fn rgb_to_y(r: i64, g: i64, b: i64) -> (o: i64)
    requires
        0 <= r <= UNIT && 0 <= g <= UNIT && 0 <= b <= UNIT,
    ensures
        o == spec_rgb_to_y(r as int, g as int, b as int),
        0 <= o <= 3 * UNIT,
{
    xyz_row(2126729, 7151522, 721750, r, g, b)
}

pub fn rgb_to_z(r: i64, g: i64, b: i64) -> (o: i64)
    requires
        0 <= r <= UNIT && 0 <= g <= UNIT && 0 <= b <= UNIT,
    ensures
        o == spec_rgb_to_z(r as int, g as int, b as int),
        0 <= o <= 3 * UNIT,
{
    xyz_row(193339, 1191920, 9503041, r, g, b)
}

/// Row of the XYZ-to-linear-sRGB matrix (coefficients scaled by 10^7,
/// possibly negative), clamped into the linear unit interval.
pub open spec fn spec_lin_row(c1: int, c2: int, c3: int, x: int, y: int, z: int) -> int {
    let s = c1 * x + c2 * y + c3 * z;
    if s <= 0 {
        0
    } else {
        spec_clamp(s / 10000000, 0, 1000000)
    }
}

fn lin_row(c1: i64, c2: i64, c3: i64, x: i64, y: i64, z: i64) -> (o: i64)
    requires
        -40000000 <= c1 <= 40000000 && -40000000 <= c2 <= 40000000 && -40000000 <= c3 <= 40000000,
        0 <= x <= 3 * UNIT && 0 <= y <= 3 * UNIT && 0 <= z <= 3 * UNIT,
    ensures
        o == spec_lin_row(c1 as int, c2 as int, c3 as int, x as int, y as int, z as int),
        0 <= o <= UNIT,
{
    proof {
        assert(-40000000 * 3000000 <= (c1 as int) * (x as int) <= 40000000 * 3000000
            && -40000000 * 3000000 <= (c2 as int) * (y as int) <= 40000000 * 3000000
            && -40000000 * 3000000 <= (c3 as int) * (z as int) <= 40000000 * 3000000)
            by (nonlinear_arith)
            requires
                -40000000 <= c1 <= 40000000 && -40000000 <= c2 <= 40000000 && -40000000 <= c3
                    <= 40000000 && 0 <= x <= 3000000 && 0 <= y <= 3000000 && 0 <= z <= 3000000,
        ;
    }
    let s: i128 = (c1 as i128) * (x as i128) + (c2 as i128) * (y as i128) + (c3 as i128) * (
    z as i128);
    if s <= 0 {
        0
    } else {
        let q: u128 = (s as u128) / 10_000_000;
        proof {
            lemma_div_is_ordered(s as int, 3int * 40000000 * 3000000, 10000000);
        }
        clamp(q as i64, 0, UNIT)
    }
}

/// Linear red from CIE XYZ (inverse sRGB matrix, D65), clamped into gamut.
pub open spec fn spec_xyz_to_r(x: int, y: int, z: int) -> int {
    spec_lin_row(32404542, -15371385, -4985314, x, y, z)
}

/// Linear green from CIE XYZ (inverse sRGB matrix, D65), clamped into gamut.
pub open spec fn spec_xyz_to_g(x: int, y: int, z: int) -> int {
    spec_lin_row(-9692660, 18760108, 415560, x, y, z)
}

/// Linear blue from CIE XYZ (inverse sRGB matrix, D65), clamped into gamut.
pub open spec fn spec_xyz_to_b(x: int, y: int, z: int) -> int {
    spec_lin_row(556434, -2040259, 10572252, x, y, z)
}

pub fn xyz_to_r(x: i64, y: i64, z: i64) -> (o: i64)
    requires
        0 <= x <= 3 * UNIT && 0 <= y <= 3 * UNIT && 0 <= z <= 3 * UNIT,
    ensures
        o == spec_xyz_to_r(x as int, y as int, z as int),
        0 <= o <= UNIT,
{
    lin_row(32404542, -15371385, -4985314, x, y, z)
}

pub fn xyz_to_g(x: i64, y: i64, z: i64) -> (o: i64)
    requires
        0 <= x <= 3 * UNIT && 0 <= y <= 3 * UNIT && 0 <= z <= 3 * UNIT,
    ensures
        o == spec_xyz_to_g(x as int, y as int, z as int),
        0 <= o <= UNIT,
{
    lin_row(-9692660, 18760108, 415560, x, y, z)
}

pub fn xyz_to_b(x: i64, y: i64, z: i64) -> (o: i64)
    requires
        0 <= x <= 3 * UNIT && 0 <= y <= 3 * UNIT && 0 <= z <= 3 * UNIT,
    ensures
        o == spec_xyz_to_b(x as int, y as int, z as int),
        0 <= o <= UNIT,
{
    lin_row(556434, -2040259, 10572252, x, y, z)
}

} // verus!
