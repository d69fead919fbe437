//! Canonical color values in micro-units: sRGB, CIE XYZ and CIE LAB, with
//! the verified conversions between sRGB and XYZ.

use crate::fixed::{clamp, spec_clamp, UNIT};
use crate::transfer::{
    gamma_to_linear, linear_to_gamma, rgb_to_x, rgb_to_y, rgb_to_z, xyz_to_r, xyz_to_g, xyz_to_b,
    spec_gamma_to_linear, spec_linear_to_gamma, spec_rgb_to_x, spec_rgb_to_y, spec_rgb_to_z,
    spec_xyz_to_r, spec_xyz_to_g, spec_xyz_to_b,
};
use vstd::prelude::*;

verus! {

/// A canonical sRGB color: encoded channels in micro-units. The canonical
/// domain is the unit cube, `0 <= channel <= UNIT`.
#[derive(Clone, Copy, Debug, PartialEq, Eq, Structural)]
pub struct Rgb {
    pub red: i64,
    pub green: i64,
    pub blue: i64,
}

impl Rgb {
    /// The channels lie in the canonical unit cube.
    pub open spec fn wf(self) -> bool {
        0 <= self.red <= UNIT && 0 <= self.green <= UNIT && 0 <= self.blue <= UNIT
    }

    /// A color from arbitrary micro-unit channels, saturated into the
    /// canonical unit cube.
    pub fn new_clamped(red: i64, green: i64, blue: i64) -> (c: Rgb)
        ensures
            c.red == spec_clamp(red as int, 0, UNIT as int),
            c.green == spec_clamp(green as int, 0, UNIT as int),
            c.blue == spec_clamp(blue as int, 0, UNIT as int),
            c.wf(),
    {
        Rgb { red: clamp(red, 0, UNIT), green: clamp(green, 0, UNIT), blue: clamp(blue, 0, UNIT) }
    }
}

/// CIE XYZ coordinates in micro-units (D65 white, Y of white = UNIT).
#[derive(Clone, Copy, Debug, PartialEq, Eq, Structural)]
pub struct Xyz {
    pub x: i64,
    pub y: i64,
    pub z: i64,
}

impl Xyz {
    /// The coordinates are non-negative and bounded by the working range.
    pub open spec fn wf(self) -> bool {
        0 <= self.x <= 3 * UNIT && 0 <= self.y <= 3 * UNIT && 0 <= self.z <= 3 * UNIT
    }
}

/// CIE LAB coordinates in micro-units (L of white = 100 * UNIT).
#[derive(Clone, Copy, Debug, PartialEq, Eq, Structural)]
pub struct Lab {
    pub l: i64,
    pub a: i64,
    pub b: i64,
}

impl Lab {
    /// The coordinates lie in the working range reachable from `Xyz::wf`.
    pub open spec fn wf(self) -> bool {
        0 <= self.l <= 200 * UNIT && -800 * UNIT <= self.a <= 800 * UNIT && -800 * UNIT <= self.b
            <= 800 * UNIT
    }
}

/// X of the XYZ image of an encoded sRGB color.
pub open spec fn spec_rgb_xyz_x(r: int, g: int, b: int) -> int {
    spec_rgb_to_x(spec_gamma_to_linear(r), spec_gamma_to_linear(g), spec_gamma_to_linear(b))
}

/// Y of the XYZ image of an encoded sRGB color.
pub open spec fn spec_rgb_xyz_y(r: int, g: int, b: int) -> int {
    spec_rgb_to_y(spec_gamma_to_linear(r), spec_gamma_to_linear(g), spec_gamma_to_linear(b))
}

/// Z of the XYZ image of an encoded sRGB color.
pub open spec fn spec_rgb_xyz_z(r: int, g: int, b: int) -> int {
    spec_rgb_to_z(spec_gamma_to_linear(r), spec_gamma_to_linear(g), spec_gamma_to_linear(b))
}

/// Encoded sRGB to CIE XYZ: linearize each channel, then the forward matrix.
pub fn rgb_to_xyz(c: &Rgb) -> (o: Xyz)
    requires
        c.wf(),
    ensures
        o.x == spec_rgb_xyz_x(c.red as int, c.green as int, c.blue as int),
        o.y == spec_rgb_xyz_y(c.red as int, c.green as int, c.blue as int),
        o.z == spec_rgb_xyz_z(c.red as int, c.green as int, c.blue as int),
        o.wf(),
{
    let lr = gamma_to_linear(c.red);
    let lg = gamma_to_linear(c.green);
    let lb = gamma_to_linear(c.blue);
    Xyz { x: rgb_to_x(lr, lg, lb), y: rgb_to_y(lr, lg, lb), z: rgb_to_z(lr, lg, lb) }
}

/// Red channel of the encoded sRGB image of an XYZ color.
pub open spec fn spec_xyz_rgb_r(x: int, y: int, z: int) -> int {
    spec_linear_to_gamma(spec_xyz_to_r(x, y, z))
}

/// Green channel of the encoded sRGB image of an XYZ color.
pub open spec fn spec_xyz_rgb_g(x: int, y: int, z: int) -> int {
    spec_linear_to_gamma(spec_xyz_to_g(x, y, z))
}

/// Blue channel of the encoded sRGB image of an XYZ color.
pub open spec fn spec_xyz_rgb_b(x: int, y: int, z: int) -> int {
    spec_linear_to_gamma(spec_xyz_to_b(x, y, z))
}

/// CIE XYZ to encoded sRGB: the inverse matrix (saturated into gamut), then
/// the transfer function on each channel.
pub fn xyz_to_rgb(o: &Xyz) -> (c: Rgb)
    requires
        o.wf(),
    ensures
        c.red == spec_xyz_rgb_r(o.x as int, o.y as int, o.z as int),
        c.green == spec_xyz_rgb_g(o.x as int, o.y as int, o.z as int),
        c.blue == spec_xyz_rgb_b(o.x as int, o.y as int, o.z as int),
        c.wf(),
{
    let lr = xyz_to_r(o.x, o.y, o.z);
    let lg = xyz_to_g(o.x, o.y, o.z);
    let lb = xyz_to_b(o.x, o.y, o.z);
    Rgb { red: linear_to_gamma(lr), green: linear_to_gamma(lg), blue: linear_to_gamma(lb) }
}

} // verus!
