//! The adjustable control of a color model and the descriptive metadata of a
//! color space.

use vstd::prelude::*;

verus! {

/// One adjustable axis of a color model: a named scalar in micro-units with
/// its intended bounds. The bounds are advisory: propagation writes player
/// values verbatim, and conversions evaluate values at their clamped
/// positions.
#[derive(Clone, Copy, Debug, PartialEq)]
pub struct Slider {
    pub name: &'static str,
    pub value: i64,
    pub min: i64,
    pub max: i64,
}

/// The mathematical content of a `Slider`.
pub struct SliderV {
    pub name: Seq<char>,
    pub value: int,
    pub min: int,
    pub max: int,
}

impl View for Slider {
    type V = SliderV;

    open spec fn view(&self) -> SliderV {
        SliderV {
            name: self.name@,
            value: self.value as int,
            min: self.min as int,
            max: self.max as int,
        }
    }
}

impl Slider {
    pub fn new_linear(name: &'static str, value: i64, min: i64, max: i64) -> (r: Slider)
        ensures
            r@.name == name@,
            r@.value == value as int,
            r@.min == min as int,
            r@.max == max as int,
    {
        Slider { name, value, min, max }
    }
}

/// Descriptive metadata of one color space: display name, a reference link,
/// and the long names of its three controls.
pub struct ColorSpaceMeta {
    pub name: &'static str,
    pub info_link: &'static str,
    pub slider_names: Vec<&'static str>,
}

} // verus!
