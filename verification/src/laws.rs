//! Library-wide laws, stated and proved once over the model specifications.
//!
//! The laws that cannot hold exactly in fixed point (round trips through the
//! rounded transfer function and roots) are checked numerically by the test
//! suite instead; what is proved here is exact.

use crate::chooser::{spec_model_from_rgb, spec_model_rgb, spec_model_xyz, ModelId};
use crate::color::{spec_rgb_xyz_x, spec_rgb_xyz_y, spec_rgb_xyz_z};
use crate::fixed::UNIT;
use vstd::prelude::*;

verus! {

/// Round trip of the sRGB adapter: reading controls back from any valid
/// canonical color and converting them forward reproduces the color exactly.
/// Since every cross-model conversion goes through a valid canonical color,
/// converting any model's controls into the sRGB model preserves that
/// model's color exactly.
pub proof fn lemma_srgb_round_trip(r: int, g: int, b: int)
    requires
        0 <= r <= UNIT,
        0 <= g <= UNIT,
        0 <= b <= UNIT,
    ensures
        ({
            let (v0, v1, v2) = spec_model_from_rgb(ModelId::Srgb, r, g, b);
            spec_model_rgb(ModelId::Srgb, v0, v1, v2) == (r, g, b)
        }),
{
}

/// For the models whose perceptual coordinates are read off their canonical
/// sRGB color (sRGB, HSV, HSL), the XYZ reading agrees exactly with
/// converting to sRGB first and then to XYZ.
pub proof fn lemma_model_xyz_through_rgb(m: ModelId, v0: int, v1: int, v2: int)
    requires
        m == ModelId::Srgb || m == ModelId::Hsv || m == ModelId::Hsl,
    ensures
        ({
            let (r, g, b) = spec_model_rgb(m, v0, v1, v2);
            spec_model_xyz(m, v0, v1, v2) == (
                spec_rgb_xyz_x(r, g, b),
                spec_rgb_xyz_y(r, g, b),
                spec_rgb_xyz_z(r, g, b),
            )
        }),
{
}

} // verus!
