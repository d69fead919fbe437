//! The color-model adapters: a closed set of strategies, each converting its
//! three controls to canonical sRGB and back, and to the perceptual XYZ and
//! LAB coordinates used for scoring.
//!
//! The five session models are dispatched through `ModelId`; the cylindrical
//! CIE LCH adapter stands on its own because its hue is recovered by
//! bisection (see `trig`) rather than by a closed formula.

use crate::color::{Lab, Rgb, Xyz, spec_rgb_xyz_x, spec_rgb_xyz_y, spec_rgb_xyz_z, spec_xyz_rgb_r,
    spec_xyz_rgb_g, spec_xyz_rgb_b, rgb_to_xyz, xyz_to_rgb};
use crate::fixed::{clamp, spec_clamp, UNIT};
use crate::hsv::{
    hsv_to_rgb, rgb_hue, rgb_hsv_sat_val, rgb_hsl_sat_light, spec_hsv_rgb_r, spec_hsv_rgb_g,
    spec_hsv_rgb_b, spec_rgb_hue, spec_rgb_hsv_sat, spec_rgb_hsv_val, spec_rgb_hsl_sat,
    spec_rgb_hsl_light, HUE_FULL,
};
use crate::labspace::{
    lab_to_xyz, xyz_to_lab, spec_lab_xyz_x, spec_lab_xyz_y, spec_lab_xyz_z, spec_xyz_lab_l,
    spec_xyz_lab_a, spec_xyz_lab_b,
};
use crate::slider::{ColorSpaceMeta, Slider};
use crate::trig::{lab_chroma, lab_hue, lch_to_lab, spec_lab_chroma, spec_lab_hue_ok, spec_lch_a,
    spec_lch_b};
use vstd::prelude::*;

verus! {

/// The five color models of a game session, in their fixed order.
#[derive(Clone, Copy, Debug, PartialEq, Eq, Structural)]
pub enum ModelId {
    Srgb,
    Hsv,
    Hsl,
    Lab,
    Xyz,
}

/// Lower bound of control `i` of model `m`.
pub open spec fn spec_min(m: ModelId, i: int) -> int {
    if m == ModelId::Lab && i >= 1 {
        -128000000
    } else {
        0
    }
}

/// Upper bound of control `i` of model `m`.
pub open spec fn spec_max(m: ModelId, i: int) -> int {
    match m {
        ModelId::Srgb => 1000000,
        ModelId::Hsv => if i == 0 {
            360000000
        } else {
            1000000
        },
        ModelId::Hsl => if i == 0 {
            360000000
        } else {
            1000000
        },
        ModelId::Lab => if i == 0 {
            100000000
        } else {
            128000000
        },
        ModelId::Xyz => 1000000,
    }
}

/// Initial value of control `i` of model `m`.
pub open spec fn spec_default(m: ModelId, i: int) -> int {
    match m {
        ModelId::Srgb => 500000,
        ModelId::Hsv => if i == 0 {
            180000000
        } else {
            500000
        },
        ModelId::Hsl => if i == 0 {
            180000000
        } else {
            500000
        },
        ModelId::Lab => if i == 0 {
            50000000
        } else {
            64000000
        },
        ModelId::Xyz => 500000,
    }
}

/// Short name of control `i` of model `m`.
pub open spec fn spec_name(m: ModelId, i: int) -> Seq<char> {
    match m {
        ModelId::Srgb => if i == 0 {
            "R"@
        } else if i == 1 {
            "G"@
        } else {
            "B"@
        },
        ModelId::Hsv => if i == 0 {
            "H"@
        } else if i == 1 {
            "S"@
        } else {
            "V"@
        },
        ModelId::Hsl => if i == 0 {
            "H"@
        } else if i == 1 {
            "S"@
        } else {
            "L"@
        },
        ModelId::Lab => if i == 0 {
            "L"@
        } else if i == 1 {
            "a"@
        } else {
            "b"@
        },
        ModelId::Xyz => if i == 0 {
            "x"@
        } else if i == 1 {
            "y"@
        } else {
            "z"@
        },
    }
}

/// Control value `v` of model `m` at position `i`, forced into its bounds
/// before a conversion reads it.
pub open spec fn spec_cv(m: ModelId, i: int, v: int) -> int {
    spec_clamp(v, spec_min(m, i), spec_max(m, i))
}

/// The sliders carry model `m`'s names and bounds, in order.
pub open spec fn model_layout(m: ModelId, s: Seq<Slider>) -> bool {
    s.len() == 3 && s[0]@.name == spec_name(m, 0) && s[1]@.name == spec_name(m, 1) && s[2]@.name
        == spec_name(m, 2) && s[0]@.min == spec_min(m, 0) && s[1]@.min == spec_min(m, 1)
        && s[2]@.min == spec_min(m, 2) && s[0]@.max == spec_max(m, 0) && s[1]@.max == spec_max(
        m,
        1,
    ) && s[2]@.max == spec_max(m, 2)
}

/// The three control values of a slider collection.
pub open spec fn slider_values(s: Seq<Slider>) -> (int, int, int) {
    (s[0]@.value, s[1]@.value, s[2]@.value)
}

/// The canonical sRGB color of model `m`'s control values.
pub open spec fn spec_model_rgb(m: ModelId, v0: int, v1: int, v2: int) -> (int, int, int) {
    let c0 = spec_cv(m, 0, v0);
    let c1 = spec_cv(m, 1, v1);
    let c2 = spec_cv(m, 2, v2);
    match m {
        ModelId::Srgb => (c0, c1, c2),
        ModelId::Hsv => (
            spec_hsv_rgb_r(c0, c1, c2),
            spec_hsv_rgb_g(c0, c1, c2),
            spec_hsv_rgb_b(c0, c1, c2),
        ),
        ModelId::Hsl => (
            spec_hsv_rgb_r(c0, c1, c2),
            spec_hsv_rgb_g(c0, c1, c2),
            spec_hsv_rgb_b(c0, c1, c2),
        ),
        ModelId::Lab => {
            let x = spec_lab_xyz_x(c0, c1);
            let y = spec_lab_xyz_y(c0);
            let z = spec_lab_xyz_z(c0, c2);
            (spec_xyz_rgb_r(x, y, z), spec_xyz_rgb_g(x, y, z), spec_xyz_rgb_b(x, y, z))
        },
        // XYZ coordinates read back from colors may exceed the slider range
        // (Z of white is about 1.0888), so this model converts over the full
        // working range rather than its slider bounds.
        ModelId::Xyz => {
            let x = spec_clamp(v0, 0, 3000000);
            let y = spec_clamp(v1, 0, 3000000);
            let z = spec_clamp(v2, 0, 3000000);
            (spec_xyz_rgb_r(x, y, z), spec_xyz_rgb_g(x, y, z), spec_xyz_rgb_b(x, y, z))
        },
    }
}

/// The control values model `m` reads back from a canonical sRGB color.
pub open spec fn spec_model_from_rgb(m: ModelId, r: int, g: int, b: int) -> (int, int, int) {
    match m {
        ModelId::Srgb => (r, g, b),
        ModelId::Hsv => (spec_rgb_hue(r, g, b), spec_rgb_hsv_sat(r, g, b), spec_rgb_hsv_val(r, g, b)),
        ModelId::Hsl => (
            spec_rgb_hue(r, g, b),
            spec_rgb_hsl_sat(r, g, b),
            spec_rgb_hsl_light(r, g, b),
        ),
        ModelId::Lab => {
            let x = spec_rgb_xyz_x(r, g, b);
            let y = spec_rgb_xyz_y(r, g, b);
            let z = spec_rgb_xyz_z(r, g, b);
            (spec_xyz_lab_l(y), spec_xyz_lab_a(x, y), spec_xyz_lab_b(y, z))
        },
        ModelId::Xyz => (spec_rgb_xyz_x(r, g, b), spec_rgb_xyz_y(r, g, b), spec_rgb_xyz_z(r, g, b)),
    }
}

/// Three sliders with model `m`'s layout and the given values.
pub fn make_sliders(m: ModelId, v0: i64, v1: i64, v2: i64) -> (out: Vec<Slider>)
    ensures
        model_layout(m, out@),
        slider_values(out@) == (v0 as int, v1 as int, v2 as int),
{
    let (n0, n1, n2): (&'static str, &'static str, &'static str) = match m {
        ModelId::Srgb => ("R", "G", "B"),
        ModelId::Hsv => ("H", "S", "V"),
        ModelId::Hsl => ("H", "S", "L"),
        ModelId::Lab => ("L", "a", "b"),
        ModelId::Xyz => ("x", "y", "z"),
    };
    let (lo1, hi0, hi1): (i64, i64, i64) = match m {
        ModelId::Srgb => (0, 1_000_000, 1_000_000),
        ModelId::Hsv => (0, 360_000_000, 1_000_000),
        ModelId::Hsl => (0, 360_000_000, 1_000_000),
        ModelId::Lab => (-128_000_000, 100_000_000, 128_000_000),
        ModelId::Xyz => (0, 1_000_000, 1_000_000),
    };
    let mut out: Vec<Slider> = Vec::new();
    out.push(Slider::new_linear(n0, v0, 0, hi0));
    out.push(Slider::new_linear(n1, v1, lo1, hi1));
    out.push(Slider::new_linear(n2, v2, lo1, hi1));
    out
}

/// The initial controls of model `m`.
pub fn model_init_sliders(m: ModelId) -> (out: Vec<Slider>)
    ensures
        model_layout(m, out@),
        slider_values(out@) == (spec_default(m, 0), spec_default(m, 1), spec_default(m, 2)),
{
    let (d0, d1, d2): (i64, i64, i64) = match m {
        ModelId::Srgb => (500_000, 500_000, 500_000),
        ModelId::Hsv => (180_000_000, 500_000, 500_000),
        ModelId::Hsl => (180_000_000, 500_000, 500_000),
        ModelId::Lab => (50_000_000, 64_000_000, 64_000_000),
        ModelId::Xyz => (500_000, 500_000, 500_000),
    };
    make_sliders(m, d0, d1, d2)
}

/// The canonical sRGB color of model `m`'s controls.
pub fn model_to_rgb(m: ModelId, s: &Vec<Slider>) -> (c: Rgb)
    requires
        s@.len() == 3,
    ensures
        (c.red as int, c.green as int, c.blue as int) == spec_model_rgb(
            m,
            s@[0]@.value,
            s@[1]@.value,
            s@[2]@.value,
        ),
        c.wf(),
{
    let v0 = s[0].value;
    let v1 = s[1].value;
    let v2 = s[2].value;
    match m {
        ModelId::Srgb => Rgb::new_clamped(v0, v1, v2),
        ModelId::Hsv => hsv_to_rgb(
            clamp(v0, 0, HUE_FULL),
            clamp(v1, 0, UNIT),
            clamp(v2, 0, UNIT),
        ),
        ModelId::Hsl => hsv_to_rgb(
            clamp(v0, 0, HUE_FULL),
            clamp(v1, 0, UNIT),
            clamp(v2, 0, UNIT),
        ),
        ModelId::Lab => {
            let lab = Lab {
                l: clamp(v0, 0, 100_000_000),
                a: clamp(v1, -128_000_000, 128_000_000),
                b: clamp(v2, -128_000_000, 128_000_000),
            };
            let xyz = lab_to_xyz(&lab);
            xyz_to_rgb(&xyz)
        },
        ModelId::Xyz => {
            let xyz = Xyz {
                x: clamp(v0, 0, 3 * UNIT),
                y: clamp(v1, 0, 3 * UNIT),
                z: clamp(v2, 0, 3 * UNIT),
            };
            xyz_to_rgb(&xyz)
        },
    }
}

/// Model `m`'s controls for a canonical sRGB color.
pub fn model_from_rgb(m: ModelId, c: &Rgb) -> (out: Vec<Slider>)
    requires
        c.wf(),
    ensures
        model_layout(m, out@),
        slider_values(out@) == spec_model_from_rgb(m, c.red as int, c.green as int, c.blue as int),
{
    match m {
        ModelId::Srgb => make_sliders(m, c.red, c.green, c.blue),
        ModelId::Hsv => {
            let h = rgb_hue(c);
            let (s, v) = rgb_hsv_sat_val(c);
            make_sliders(m, h, s, v)
        },
        ModelId::Hsl => {
            let h = rgb_hue(c);
            let (s, l) = rgb_hsl_sat_light(c);
            make_sliders(m, h, s, l)
        },
        ModelId::Lab => {
            let xyz = rgb_to_xyz(c);
            let lab = xyz_to_lab(&xyz);
            make_sliders(m, lab.l, lab.a, lab.b)
        },
        ModelId::Xyz => {
            let xyz = rgb_to_xyz(c);
            make_sliders(m, xyz.x, xyz.y, xyz.z)
        },
    }
}

/// The perceptual XYZ coordinates of model `m`'s control values: native for
/// the XYZ and LAB models, through canonical sRGB for the others.
pub open spec fn spec_model_xyz(m: ModelId, v0: int, v1: int, v2: int) -> (int, int, int) {
    let c0 = spec_cv(m, 0, v0);
    let c1 = spec_cv(m, 1, v1);
    let c2 = spec_cv(m, 2, v2);
    match m {
        ModelId::Xyz => (v0, v1, v2),
        ModelId::Lab => (spec_lab_xyz_x(c0, c1), spec_lab_xyz_y(c0), spec_lab_xyz_z(c0, c2)),
        _ => {
            let (r, g, b) = spec_model_rgb(m, v0, v1, v2);
            (spec_rgb_xyz_x(r, g, b), spec_rgb_xyz_y(r, g, b), spec_rgb_xyz_z(r, g, b))
        },
    }
}

/// The perceptual LAB coordinates of model `m`'s control values: native for
/// the LAB model, through XYZ for the XYZ model, through canonical sRGB for
/// the others.
pub open spec fn spec_model_lab(m: ModelId, v0: int, v1: int, v2: int) -> (int, int, int) {
    let c0 = spec_cv(m, 0, v0);
    let c1 = spec_cv(m, 1, v1);
    let c2 = spec_cv(m, 2, v2);
    match m {
        ModelId::Lab => (v0, v1, v2),
        ModelId::Xyz => {
            let x = spec_clamp(v0, 0, 3000000);
            let y = spec_clamp(v1, 0, 3000000);
            let z = spec_clamp(v2, 0, 3000000);
            (spec_xyz_lab_l(y), spec_xyz_lab_a(x, y), spec_xyz_lab_b(y, z))
        },
        _ => {
            let (r, g, b) = spec_model_rgb(m, v0, v1, v2);
            let x = spec_rgb_xyz_x(r, g, b);
            let y = spec_rgb_xyz_y(r, g, b);
            let z = spec_rgb_xyz_z(r, g, b);
            (spec_xyz_lab_l(y), spec_xyz_lab_a(x, y), spec_xyz_lab_b(y, z))
        },
    }
}

/// The XYZ coordinates of model `m`'s controls.
pub fn model_to_xyz(m: ModelId, s: &Vec<Slider>) -> (o: Xyz)
    requires
        s@.len() == 3,
    ensures
        (o.x as int, o.y as int, o.z as int) == spec_model_xyz(
            m,
            s@[0]@.value,
            s@[1]@.value,
            s@[2]@.value,
        ),
{
    match m {
        ModelId::Xyz => Xyz { x: s[0].value, y: s[1].value, z: s[2].value },
        ModelId::Lab => {
            let lab = Lab {
                l: clamp(s[0].value, 0, 100_000_000),
                a: clamp(s[1].value, -128_000_000, 128_000_000),
                b: clamp(s[2].value, -128_000_000, 128_000_000),
            };
            lab_to_xyz(&lab)
        },
        _ => {
            let c = model_to_rgb(m, s);
            rgb_to_xyz(&c)
        },
    }
}

/// The LAB coordinates of model `m`'s controls.
pub fn model_to_lab(m: ModelId, s: &Vec<Slider>) -> (o: Lab)
    requires
        s@.len() == 3,
    ensures
        (o.l as int, o.a as int, o.b as int) == spec_model_lab(
            m,
            s@[0]@.value,
            s@[1]@.value,
            s@[2]@.value,
        ),
{
    match m {
        ModelId::Lab => Lab { l: s[0].value, a: s[1].value, b: s[2].value },
        ModelId::Xyz => {
            let xyz = Xyz {
                x: clamp(s[0].value, 0, 3 * UNIT),
                y: clamp(s[1].value, 0, 3 * UNIT),
                z: clamp(s[2].value, 0, 3 * UNIT),
            };
            xyz_to_lab(&xyz)
        },
        _ => {
            let c = model_to_rgb(m, s);
            let xyz = rgb_to_xyz(&c);
            xyz_to_lab(&xyz)
        },
    }
}

/// Converts the source model's control values into the destination model's
/// controls, through the shared canonical sRGB color. The destination keeps
/// its own layout; only its values change.
pub fn chooser_convert(source: ModelId, sliders: &Vec<Slider>, dest: ModelId, dst_sliders: &mut Vec<
    Slider,
>) -> (c: Rgb)
    requires
        sliders@.len() == 3,
    ensures
        (c.red as int, c.green as int, c.blue as int) == spec_model_rgb(
            source,
            sliders@[0]@.value,
            sliders@[1]@.value,
            sliders@[2]@.value,
        ),
        model_layout(dest, final(dst_sliders)@),
        slider_values(final(dst_sliders)@) == spec_model_from_rgb(
            dest,
            c.red as int,
            c.green as int,
            c.blue as int,
        ),
        c.wf(),
{
    let rgb = model_to_rgb(source, sliders);
    *dst_sliders = model_from_rgb(dest, &rgb);
    rgb
}

fn meta_names(a: &'static str, b: &'static str, c: &'static str) -> (out: Vec<&'static str>)
    ensures
        out@.len() == 3,
        out@[0]@ == a@,
        out@[1]@ == b@,
        out@[2]@ == c@,
{
    let mut out: Vec<&'static str> = Vec::new();
    out.push(a);
    out.push(b);
    out.push(c);
    out
}

/// The adapter for the sRGB model itself: controls are the channels.
#[derive(Clone, Copy, Default)]
pub struct RGBChooser;

impl RGBChooser {
    pub fn get_meta(&self) -> (r: ColorSpaceMeta)
        ensures
            r.name@ == "RGB"@,
            r.info_link@ == "https://en.wikipedia.org/wiki/RGB_color_model"@,
            r.slider_names@.len() == 3,
    {
        ColorSpaceMeta {
            name: "RGB",
            info_link: "https://en.wikipedia.org/wiki/RGB_color_model",
            slider_names: meta_names("Red", "Green", "Blue"),
        }
    }

    pub fn init_sliders(&self) -> (out: Vec<Slider>)
        ensures
            model_layout(ModelId::Srgb, out@),
            slider_values(out@) == (500000int, 500000int, 500000int),
    {
        model_init_sliders(ModelId::Srgb)
    }

    pub fn as_srgb(&self, sliders: &Vec<Slider>) -> (c: Rgb)
        requires
            sliders@.len() == 3,
        ensures
            (c.red as int, c.green as int, c.blue as int) == spec_model_rgb(
                ModelId::Srgb,
                sliders@[0]@.value,
                sliders@[1]@.value,
                sliders@[2]@.value,
            ),
            c.wf(),
    {
        model_to_rgb(ModelId::Srgb, sliders)
    }

    pub fn compute_xyz(&self, sliders: &Vec<Slider>) -> (o: Xyz)
        requires
            sliders@.len() == 3,
        ensures
            (o.x as int, o.y as int, o.z as int) == spec_model_xyz(
                ModelId::Srgb,
                sliders@[0]@.value,
                sliders@[1]@.value,
                sliders@[2]@.value,
            ),
    {
        model_to_xyz(ModelId::Srgb, sliders)
    }

    pub fn compute_lab(&self, sliders: &Vec<Slider>) -> (o: Lab)
        requires
            sliders@.len() == 3,
        ensures
            (o.l as int, o.a as int, o.b as int) == spec_model_lab(
                ModelId::Srgb,
                sliders@[0]@.value,
                sliders@[1]@.value,
                sliders@[2]@.value,
            ),
    {
        model_to_lab(ModelId::Srgb, sliders)
    }

    pub fn from_srgb(rgb: Rgb) -> (out: Vec<Slider>)
        requires
            rgb.wf(),
        ensures
            model_layout(ModelId::Srgb, out@),
            slider_values(out@) == spec_model_from_rgb(
                ModelId::Srgb,
                rgb.red as int,
                rgb.green as int,
                rgb.blue as int,
            ),
    {
        model_from_rgb(ModelId::Srgb, &rgb)
    }
}

/// The adapter for the HSV model.
#[derive(Clone, Copy, Default)]
pub struct HSVChooser;

impl HSVChooser {
    pub fn get_meta(&self) -> (r: ColorSpaceMeta)
        ensures
            r.name@ == "HSV"@,
            r.info_link@ == "https://en.wikipedia.org/wiki/HSL_and_HSV"@,
            r.slider_names@.len() == 3,
    {
        ColorSpaceMeta {
            name: "HSV",
            info_link: "https://en.wikipedia.org/wiki/HSL_and_HSV",
            slider_names: meta_names("Hue", "Saturation", "Value"),
        }
    }

    pub fn init_sliders(&self) -> (out: Vec<Slider>)
        ensures
            model_layout(ModelId::Hsv, out@),
            slider_values(out@) == (180000000int, 500000int, 500000int),
    {
        model_init_sliders(ModelId::Hsv)
    }

    pub fn as_srgb(&self, sliders: &Vec<Slider>) -> (c: Rgb)
        requires
            sliders@.len() == 3,
        ensures
            (c.red as int, c.green as int, c.blue as int) == spec_model_rgb(
                ModelId::Hsv,
                sliders@[0]@.value,
                sliders@[1]@.value,
                sliders@[2]@.value,
            ),
            c.wf(),
    {
        model_to_rgb(ModelId::Hsv, sliders)
    }

    pub fn compute_xyz(&self, sliders: &Vec<Slider>) -> (o: Xyz)
        requires
            sliders@.len() == 3,
        ensures
            (o.x as int, o.y as int, o.z as int) == spec_model_xyz(
                ModelId::Hsv,
                sliders@[0]@.value,
                sliders@[1]@.value,
                sliders@[2]@.value,
            ),
    {
        model_to_xyz(ModelId::Hsv, sliders)
    }

    pub fn compute_lab(&self, sliders: &Vec<Slider>) -> (o: Lab)
        requires
            sliders@.len() == 3,
        ensures
            (o.l as int, o.a as int, o.b as int) == spec_model_lab(
                ModelId::Hsv,
                sliders@[0]@.value,
                sliders@[1]@.value,
                sliders@[2]@.value,
            ),
    {
        model_to_lab(ModelId::Hsv, sliders)
    }

    pub fn from_srgb(rgb: Rgb) -> (out: Vec<Slider>)
        requires
            rgb.wf(),
        ensures
            model_layout(ModelId::Hsv, out@),
            slider_values(out@) == spec_model_from_rgb(
                ModelId::Hsv,
                rgb.red as int,
                rgb.green as int,
                rgb.blue as int,
            ),
    {
        model_from_rgb(ModelId::Hsv, &rgb)
    }
}

/// The adapter for the HSL model. Reading controls back from sRGB uses the
/// genuine HSL saturation and lightness; the forward conversion feeds the
/// (hue, saturation, lightness) triple through the HSV formula, a deliberate
/// quirk of the game's color handling, kept so that the models behave as
/// players know them.
#[derive(Clone, Copy, Default)]
pub struct HSLChooser;

impl HSLChooser {
    pub fn get_meta(&self) -> (r: ColorSpaceMeta)
        ensures
            r.name@ == "HSL"@,
            r.info_link@ == "https://en.wikipedia.org/wiki/HSL_and_HSV"@,
            r.slider_names@.len() == 3,
    {
        ColorSpaceMeta {
            name: "HSL",
            info_link: "https://en.wikipedia.org/wiki/HSL_and_HSV",
            slider_names: meta_names("Hue", "Saturation", "Lightness"),
        }
    }

    pub fn init_sliders(&self) -> (out: Vec<Slider>)
        ensures
            model_layout(ModelId::Hsl, out@),
            slider_values(out@) == (180000000int, 500000int, 500000int),
    {
        model_init_sliders(ModelId::Hsl)
    }

    pub fn as_srgb(&self, sliders: &Vec<Slider>) -> (c: Rgb)
        requires
            sliders@.len() == 3,
        ensures
            (c.red as int, c.green as int, c.blue as int) == spec_model_rgb(
                ModelId::Hsl,
                sliders@[0]@.value,
                sliders@[1]@.value,
                sliders@[2]@.value,
            ),
            c.wf(),
    {
        model_to_rgb(ModelId::Hsl, sliders)
    }

    pub fn compute_xyz(&self, sliders: &Vec<Slider>) -> (o: Xyz)
        requires
            sliders@.len() == 3,
        ensures
            (o.x as int, o.y as int, o.z as int) == spec_model_xyz(
                ModelId::Hsl,
                sliders@[0]@.value,
                sliders@[1]@.value,
                sliders@[2]@.value,
            ),
    {
        model_to_xyz(ModelId::Hsl, sliders)
    }

    pub fn compute_lab(&self, sliders: &Vec<Slider>) -> (o: Lab)
        requires
            sliders@.len() == 3,
        ensures
            (o.l as int, o.a as int, o.b as int) == spec_model_lab(
                ModelId::Hsl,
                sliders@[0]@.value,
                sliders@[1]@.value,
                sliders@[2]@.value,
            ),
    {
        model_to_lab(ModelId::Hsl, sliders)
    }

    pub fn from_srgb(rgb: Rgb) -> (out: Vec<Slider>)
        requires
            rgb.wf(),
        ensures
            model_layout(ModelId::Hsl, out@),
            slider_values(out@) == spec_model_from_rgb(
                ModelId::Hsl,
                rgb.red as int,
                rgb.green as int,
                rgb.blue as int,
            ),
    {
        model_from_rgb(ModelId::Hsl, &rgb)
    }
}

/// The adapter for the CIE LAB model.
#[derive(Clone, Copy, Default)]
pub struct LABChooser;

impl LABChooser {
    pub fn get_meta(&self) -> (r: ColorSpaceMeta)
        ensures
            r.name@ == "CIELAB"@,
            r.info_link@ == "https://en.wikipedia.org/wiki/CIELAB_color_space"@,
            r.slider_names@.len() == 3,
    {
        ColorSpaceMeta {
            name: "CIELAB",
            info_link: "https://en.wikipedia.org/wiki/CIELAB_color_space",
            slider_names: meta_names("Lightness", "A", "B"),
        }
    }

    pub fn init_sliders(&self) -> (out: Vec<Slider>)
        ensures
            model_layout(ModelId::Lab, out@),
            slider_values(out@) == (50000000int, 64000000int, 64000000int),
    {
        model_init_sliders(ModelId::Lab)
    }

    pub fn as_srgb(&self, sliders: &Vec<Slider>) -> (c: Rgb)
        requires
            sliders@.len() == 3,
        ensures
            (c.red as int, c.green as int, c.blue as int) == spec_model_rgb(
                ModelId::Lab,
                sliders@[0]@.value,
                sliders@[1]@.value,
                sliders@[2]@.value,
            ),
            c.wf(),
    {
        model_to_rgb(ModelId::Lab, sliders)
    }

    pub fn compute_xyz(&self, sliders: &Vec<Slider>) -> (o: Xyz)
        requires
            sliders@.len() == 3,
        ensures
            (o.x as int, o.y as int, o.z as int) == spec_model_xyz(
                ModelId::Lab,
                sliders@[0]@.value,
                sliders@[1]@.value,
                sliders@[2]@.value,
            ),
    {
        model_to_xyz(ModelId::Lab, sliders)
    }

    pub fn compute_lab(&self, sliders: &Vec<Slider>) -> (o: Lab)
        requires
            sliders@.len() == 3,
        ensures
            (o.l as int, o.a as int, o.b as int) == spec_model_lab(
                ModelId::Lab,
                sliders@[0]@.value,
                sliders@[1]@.value,
                sliders@[2]@.value,
            ),
    {
        model_to_lab(ModelId::Lab, sliders)
    }

    pub fn from_srgb(rgb: Rgb) -> (out: Vec<Slider>)
        requires
            rgb.wf(),
        ensures
            model_layout(ModelId::Lab, out@),
            slider_values(out@) == spec_model_from_rgb(
                ModelId::Lab,
                rgb.red as int,
                rgb.green as int,
                rgb.blue as int,
            ),
    {
        model_from_rgb(ModelId::Lab, &rgb)
    }
}

/// The adapter for the CIE XYZ model.
#[derive(Clone, Copy, Default)]
pub struct XYZChooser;

impl XYZChooser {
    pub fn get_meta(&self) -> (r: ColorSpaceMeta)
        ensures
            r.name@ == "CIEXYZ"@,
            r.info_link@ == "https://en.wikipedia.org/wiki/CIE_1931_color_space"@,
            r.slider_names@.len() == 3,
    {
        ColorSpaceMeta {
            name: "CIEXYZ",
            info_link: "https://en.wikipedia.org/wiki/CIE_1931_color_space",
            slider_names: meta_names("X", "Y", "Z"),
        }
    }

    pub fn init_sliders(&self) -> (out: Vec<Slider>)
        ensures
            model_layout(ModelId::Xyz, out@),
            slider_values(out@) == (500000int, 500000int, 500000int),
    {
        model_init_sliders(ModelId::Xyz)
    }

    pub fn as_srgb(&self, sliders: &Vec<Slider>) -> (c: Rgb)
        requires
            sliders@.len() == 3,
        ensures
            (c.red as int, c.green as int, c.blue as int) == spec_model_rgb(
                ModelId::Xyz,
                sliders@[0]@.value,
                sliders@[1]@.value,
                sliders@[2]@.value,
            ),
            c.wf(),
    {
        model_to_rgb(ModelId::Xyz, sliders)
    }

    pub fn compute_xyz(&self, sliders: &Vec<Slider>) -> (o: Xyz)
        requires
            sliders@.len() == 3,
        ensures
            (o.x as int, o.y as int, o.z as int) == spec_model_xyz(
                ModelId::Xyz,
                sliders@[0]@.value,
                sliders@[1]@.value,
                sliders@[2]@.value,
            ),
    {
        model_to_xyz(ModelId::Xyz, sliders)
    }

    pub fn compute_lab(&self, sliders: &Vec<Slider>) -> (o: Lab)
        requires
            sliders@.len() == 3,
        ensures
            (o.l as int, o.a as int, o.b as int) == spec_model_lab(
                ModelId::Xyz,
                sliders@[0]@.value,
                sliders@[1]@.value,
                sliders@[2]@.value,
            ),
    {
        model_to_lab(ModelId::Xyz, sliders)
    }

    pub fn from_srgb(rgb: Rgb) -> (out: Vec<Slider>)
        requires
            rgb.wf(),
        ensures
            model_layout(ModelId::Xyz, out@),
            slider_values(out@) == spec_model_from_rgb(
                ModelId::Xyz,
                rgb.red as int,
                rgb.green as int,
                rgb.blue as int,
            ),
    {
        model_from_rgb(ModelId::Xyz, &rgb)
    }
}

/// The adapter for the cylindrical CIE LCH model. Its hue comes back from
/// sRGB as the bisected angle of the LAB chromatic vector (see `trig`), so
/// its reading of a color agrees with its own forward conversion.
#[derive(Clone, Copy, Default)]
pub struct LCHChooser;

impl LCHChooser {
    pub fn get_meta(&self) -> (r: ColorSpaceMeta)
        ensures
            r.name@ == "CIELCH"@,
            r.info_link@ == "https://en.wikipedia.org/wiki/CIELAB_color_space#Cylindrical_representation:_CIELCh_or_CIEHLC"@,
            r.slider_names@.len() == 3,
    {
        ColorSpaceMeta {
            name: "CIELCH",
            info_link:
                "https://en.wikipedia.org/wiki/CIELAB_color_space#Cylindrical_representation:_CIELCh_or_CIEHLC",
            slider_names: meta_names("Lightness", "Chroma", "Hue"),
        }
    }

    /// The clamped LCH control values read by the conversions.
    pub open spec fn spec_cv3(v0: int, v1: int, v2: int) -> (int, int, int) {
        (
            spec_clamp(v0, 0, 100000000),
            spec_clamp(v1, 0, 128000000),
            spec_clamp(v2, 0, 360000000),
        )
    }

    /// The LAB coordinates of LCH control values.
    pub open spec fn spec_lch_lab(v0: int, v1: int, v2: int) -> (int, int, int) {
        let (l, c, h) = Self::spec_cv3(v0, v1, v2);
        (l, spec_lch_a(c, h), spec_lch_b(c, h))
    }

    pub fn init_sliders(&self) -> (out: Vec<Slider>)
        ensures
            out@.len() == 3,
            out@[0]@.name == "L"@ && out@[1]@.name == "C"@ && out@[2]@.name == "H"@,
            out@[0]@.min == 0 && out@[1]@.min == 0 && out@[2]@.min == 0,
            out@[0]@.max == 100000000 && out@[1]@.max == 128000000 && out@[2]@.max == 360000000,
            slider_values(out@) == (50000000int, 64000000int, 180000000int),
    {
        let mut out: Vec<Slider> = Vec::new();
        out.push(Slider::new_linear("L", 50_000_000, 0, 100_000_000));
        out.push(Slider::new_linear("C", 64_000_000, 0, 128_000_000));
        out.push(Slider::new_linear("H", 180_000_000, 0, 360_000_000));
        out
    }

    pub fn compute_lab(&self, sliders: &Vec<Slider>) -> (o: Lab)
        requires
            sliders@.len() == 3,
        ensures
            (o.l as int, o.a as int, o.b as int) == Self::spec_lch_lab(
                sliders@[0]@.value,
                sliders@[1]@.value,
                sliders@[2]@.value,
            ),
            -128 * UNIT <= o.a <= 128 * UNIT && -128 * UNIT <= o.b <= 128 * UNIT && 0 <= o.l <= 100
                * UNIT,
    {
        let l = clamp(sliders[0].value, 0, 100_000_000);
        let c = clamp(sliders[1].value, 0, 128_000_000);
        let h = clamp(sliders[2].value, 0, 360_000_000);
        lch_to_lab(l, c, h)
    }

    pub fn compute_xyz(&self, sliders: &Vec<Slider>) -> (o: Xyz)
        requires
            sliders@.len() == 3,
        ensures
            ({
                let (l, a, b) = Self::spec_lch_lab(
                    sliders@[0]@.value,
                    sliders@[1]@.value,
                    sliders@[2]@.value,
                );
                o.x == spec_lab_xyz_x(l, a) && o.y == spec_lab_xyz_y(l) && o.z == spec_lab_xyz_z(
                    l,
                    b,
                )
            }),
            o.wf(),
    {
        let lab = self.compute_lab(sliders);
        lab_to_xyz(&lab)
    }

    pub fn as_srgb(&self, sliders: &Vec<Slider>) -> (c: Rgb)
        requires
            sliders@.len() == 3,
        ensures
            ({
                let (l, a, b) = Self::spec_lch_lab(
                    sliders@[0]@.value,
                    sliders@[1]@.value,
                    sliders@[2]@.value,
                );
                let x = spec_lab_xyz_x(l, a);
                let y = spec_lab_xyz_y(l);
                let z = spec_lab_xyz_z(l, b);
                c.red == spec_xyz_rgb_r(x, y, z) && c.green == spec_xyz_rgb_g(x, y, z) && c.blue
                    == spec_xyz_rgb_b(x, y, z)
            }),
            c.wf(),
    {
        let xyz = self.compute_xyz(sliders);
        xyz_to_rgb(&xyz)
    }

    pub fn from_srgb(rgb: Rgb) -> (out: Vec<Slider>)
        requires
            rgb.wf(),
        ensures
            out@.len() == 3,
            out@[0]@.name == "L"@ && out@[1]@.name == "C"@ && out@[2]@.name == "H"@,
            ({
                let (l, a, b) = spec_model_from_rgb(
                    ModelId::Lab,
                    rgb.red as int,
                    rgb.green as int,
                    rgb.blue as int,
                );
                out@[0]@.value == l && out@[1]@.value == spec_lab_chroma(a, b) && spec_lab_hue_ok(
                    a,
                    b,
                    out@[2]@.value,
                )
            }),
    {
        let xyz = rgb_to_xyz(&rgb);
        let lab = xyz_to_lab(&xyz);
        let chroma = lab_chroma(lab.a, lab.b);
        let hue = lab_hue(lab.a, lab.b);
        let mut out: Vec<Slider> = Vec::new();
        out.push(Slider::new_linear("L", lab.l, 0, 100_000_000));
        out.push(Slider::new_linear("C", chroma, 0, 128_000_000));
        out.push(Slider::new_linear("H", hue, 0, 360_000_000));
        out
    }
}

} // verus!
