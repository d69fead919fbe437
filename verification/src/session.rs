//! The game session: one challenge and one set of controls per color model,
//! kept synchronized to a single shared color. The most recently edited (or
//! switched-to) model is authoritative; every other model's controls are
//! derived from its canonical sRGB color.

use crate::challenge::{spec_is_excluded, ColorChallenge, ExcludeReason};
use crate::chooser::{
    model_from_rgb, model_init_sliders, model_to_lab, model_to_rgb, model_layout, slider_values,
    spec_default, spec_model_from_rgb, spec_model_lab, spec_model_rgb, ModelId,
};
use crate::color::{Lab, Rgb, spec_rgb_xyz_x, spec_rgb_xyz_y, spec_rgb_xyz_z, rgb_to_xyz};
use crate::labspace::{xyz_to_lab, spec_xyz_lab_l, spec_xyz_lab_a, spec_xyz_lab_b};
use crate::slider::Slider;
use vstd::prelude::*;

verus! {

/// The control state of one game session.
pub struct GameContext {
    challenge: ColorChallenge,
    authority: ModelId,
    srgb_sliders: Vec<Slider>,
    hsv_sliders: Vec<Slider>,
    hsl_sliders: Vec<Slider>,
    lab_sliders: Vec<Slider>,
    xyz_sliders: Vec<Slider>,
}

impl GameContext {
    /// The controls of model `m`.
    pub closed spec fn spec_sliders(self, m: ModelId) -> Seq<Slider> {
        match m {
            ModelId::Srgb => self.srgb_sliders@,
            ModelId::Hsv => self.hsv_sliders@,
            ModelId::Hsl => self.hsl_sliders@,
            ModelId::Lab => self.lab_sliders@,
            ModelId::Xyz => self.xyz_sliders@,
        }
    }

    /// The authoritative model: the one most recently edited or switched to.
    pub closed spec fn spec_authority(self) -> ModelId {
        self.authority
    }

    /// The target color of the session's challenge.
    pub closed spec fn spec_target(self) -> Rgb {
        self.challenge.spec_target()
    }

    /// Every model's controls carry that model's layout, and the challenge
    /// holds an accepted canonical target.
    pub open spec fn wf(self) -> bool {
        &&& self.spec_target().wf()
        &&& spec_is_excluded(
            self.spec_target().red as int,
            self.spec_target().green as int,
            self.spec_target().blue as int,
        ) is None
        &&& model_layout(ModelId::Srgb, self.spec_sliders(ModelId::Srgb))
        &&& model_layout(ModelId::Hsv, self.spec_sliders(ModelId::Hsv))
        &&& model_layout(ModelId::Hsl, self.spec_sliders(ModelId::Hsl))
        &&& model_layout(ModelId::Lab, self.spec_sliders(ModelId::Lab))
        &&& model_layout(ModelId::Xyz, self.spec_sliders(ModelId::Xyz))
    }

    /// The canonical sRGB color of model `m`'s controls.
    pub open spec fn spec_color(self, m: ModelId) -> (int, int, int)
        recommends
            self.wf(),
    {
        let (v0, v1, v2) = slider_values(self.spec_sliders(m));
        spec_model_rgb(m, v0, v1, v2)
    }

    /// Model `m`'s control values agree with the authoritative color.
    pub open spec fn model_synced(self, m: ModelId) -> bool {
        let (r, g, b) = self.spec_color(self.spec_authority());
        slider_values(self.spec_sliders(m)) == spec_model_from_rgb(m, r, g, b)
    }

    /// Every non-authoritative model displays the authoritative color.
    pub open spec fn synced(self) -> bool {
        &&& (self.spec_authority() != ModelId::Srgb ==> self.model_synced(ModelId::Srgb))
        &&& (self.spec_authority() != ModelId::Hsv ==> self.model_synced(ModelId::Hsv))
        &&& (self.spec_authority() != ModelId::Hsl ==> self.model_synced(ModelId::Hsl))
        &&& (self.spec_authority() != ModelId::Lab ==> self.model_synced(ModelId::Lab))
        &&& (self.spec_authority() != ModelId::Xyz ==> self.model_synced(ModelId::Xyz))
    }

    /// A fresh session: a random accepted target, every model at its initial
    /// controls, the sRGB model authoritative.
    pub fn new() -> (g: GameContext)
        ensures
            g.wf(),
            g.spec_authority() == ModelId::Srgb,
            slider_values(g.spec_sliders(ModelId::Srgb)) == (
                spec_default(ModelId::Srgb, 0),
                spec_default(ModelId::Srgb, 1),
                spec_default(ModelId::Srgb, 2),
            ),
            slider_values(g.spec_sliders(ModelId::Hsv)) == (
                spec_default(ModelId::Hsv, 0),
                spec_default(ModelId::Hsv, 1),
                spec_default(ModelId::Hsv, 2),
            ),
            slider_values(g.spec_sliders(ModelId::Hsl)) == (
                spec_default(ModelId::Hsl, 0),
                spec_default(ModelId::Hsl, 1),
                spec_default(ModelId::Hsl, 2),
            ),
            slider_values(g.spec_sliders(ModelId::Lab)) == (
                spec_default(ModelId::Lab, 0),
                spec_default(ModelId::Lab, 1),
                spec_default(ModelId::Lab, 2),
            ),
            slider_values(g.spec_sliders(ModelId::Xyz)) == (
                spec_default(ModelId::Xyz, 0),
                spec_default(ModelId::Xyz, 1),
                spec_default(ModelId::Xyz, 2),
            ),
    {
        GameContext {
            challenge: ColorChallenge::new(),
            authority: ModelId::Srgb,
            srgb_sliders: model_init_sliders(ModelId::Srgb),
            hsv_sliders: model_init_sliders(ModelId::Hsv),
            hsl_sliders: model_init_sliders(ModelId::Hsl),
            lab_sliders: model_init_sliders(ModelId::Lab),
            xyz_sliders: model_init_sliders(ModelId::Xyz),
        }
    }

    /// The target color.
    pub fn target_color(&self) -> (c: Rgb)
        ensures
            c == self.spec_target(),
    {
        *self.target_color_ref()
    }

    fn target_color_ref(&self) -> (c: &Rgb)
        ensures
            *c == self.spec_target(),
    {
        self.challenge.target_color()
    }

    /// A borrow of model `m`'s controls.
    pub fn sliders_ref(&self, m: ModelId) -> (s: &Vec<Slider>)
        ensures
            s@ == self.spec_sliders(m),
    {
        match m {
            ModelId::Srgb => &self.srgb_sliders,
            ModelId::Hsv => &self.hsv_sliders,
            ModelId::Hsl => &self.hsl_sliders,
            ModelId::Lab => &self.lab_sliders,
            ModelId::Xyz => &self.xyz_sliders,
        }
    }

    /// The canonical sRGB color currently shown by model `m`.
    pub fn current_color_of(&self, m: ModelId) -> (c: Rgb)
        requires
            self.wf(),
        ensures
            (c.red as int, c.green as int, c.blue as int) == self.spec_color(m),
            c.wf(),
    {
        model_to_rgb(m, self.sliders_ref(m))
    }

    /// The LAB coordinates of the sRGB model's current color, used for
    /// scoring against the target.
    pub fn current_lab(&self) -> (o: Lab)
        requires
            self.wf(),
        ensures
            ({
                let (v0, v1, v2) = slider_values(self.spec_sliders(ModelId::Srgb));
                (o.l as int, o.a as int, o.b as int) == spec_model_lab(ModelId::Srgb, v0, v1, v2)
            }),
    {
        model_to_lab(ModelId::Srgb, self.sliders_ref(ModelId::Srgb))
    }

    /// The LAB coordinates of the target color.
    pub fn target_lab(&self) -> (o: Lab)
        requires
            self.wf(),
        ensures
            ({
                let t = self.spec_target();
                let x = spec_rgb_xyz_x(t.red as int, t.green as int, t.blue as int);
                let y = spec_rgb_xyz_y(t.red as int, t.green as int, t.blue as int);
                let z = spec_rgb_xyz_z(t.red as int, t.green as int, t.blue as int);
                o.l == spec_xyz_lab_l(y) && o.a == spec_xyz_lab_a(x, y) && o.b == spec_xyz_lab_b(
                    y,
                    z,
                )
            }),
    {
        let xyz = rgb_to_xyz(self.target_color_ref());
        xyz_to_lab(&xyz)
    }

    /// The acceptability verdict on the sRGB model's current color.
    pub fn acceptable(&self) -> (r: Option<ExcludeReason>)
        requires
            self.wf(),
        ensures
            ({
                let (cr, cg, cb) = self.spec_color(ModelId::Srgb);
                r == spec_is_excluded(cr, cg, cb)
            }),
    {
        let c = self.current_color_of(ModelId::Srgb);
        ColorChallenge::is_excluded(&c)
    }

    /// Pushes model `m`'s color to every other model and makes `m`
    /// authoritative. `m`'s own controls are untouched.
    fn propagate(&mut self, m: ModelId)
        requires
            old(self).wf(),
        ensures
            final(self).wf(),
            final(self).spec_authority() == m,
            final(self).spec_target() == old(self).spec_target(),
            final(self).spec_sliders(m) == old(self).spec_sliders(m),
            final(self).synced(),
    {
        let rgb = model_to_rgb(m, self.sliders_ref(m));
        if !matches!(m, ModelId::Srgb) {
            self.srgb_sliders = model_from_rgb(ModelId::Srgb, &rgb);
        }
        if !matches!(m, ModelId::Hsv) {
            self.hsv_sliders = model_from_rgb(ModelId::Hsv, &rgb);
        }
        if !matches!(m, ModelId::Hsl) {
            self.hsl_sliders = model_from_rgb(ModelId::Hsl, &rgb);
        }
        if !matches!(m, ModelId::Lab) {
            self.lab_sliders = model_from_rgb(ModelId::Lab, &rgb);
        }
        if !matches!(m, ModelId::Xyz) {
            self.xyz_sliders = model_from_rgb(ModelId::Xyz, &rgb);
        }
        self.authority = m;
    }

    /// Makes `m` the authoritative model and re-derives every other model's
    /// controls from its color. Switching to a model that is already
    /// authoritative and synchronized changes no control value.
    pub fn switch_to(&mut self, m: ModelId)
        requires
            old(self).wf(),
        ensures
            final(self).wf(),
            final(self).spec_authority() == m,
            final(self).spec_target() == old(self).spec_target(),
            final(self).spec_sliders(m) == old(self).spec_sliders(m),
            final(self).synced(),
            old(self).synced() && old(self).spec_authority() == m ==> {
                &&& slider_values(final(self).spec_sliders(ModelId::Srgb)) == slider_values(
                    old(self).spec_sliders(ModelId::Srgb),
                )
                &&& slider_values(final(self).spec_sliders(ModelId::Hsv)) == slider_values(
                    old(self).spec_sliders(ModelId::Hsv),
                )
                &&& slider_values(final(self).spec_sliders(ModelId::Hsl)) == slider_values(
                    old(self).spec_sliders(ModelId::Hsl),
                )
                &&& slider_values(final(self).spec_sliders(ModelId::Lab)) == slider_values(
                    old(self).spec_sliders(ModelId::Lab),
                )
                &&& slider_values(final(self).spec_sliders(ModelId::Xyz)) == slider_values(
                    old(self).spec_sliders(ModelId::Xyz),
                )
            },
    {
        self.propagate(m);
    }

    /// Applies player values to model `m`'s controls positionally (verbatim,
    /// not clamped; missing positions keep their value, extra values are
    /// ignored), then pushes `m`'s color to every other model.
    pub fn apply_values(&mut self, m: ModelId, values: &Vec<i64>)
        requires
            old(self).wf(),
        ensures
            final(self).wf(),
            final(self).spec_authority() == m,
            final(self).spec_target() == old(self).spec_target(),
            final(self).synced(),
            ({
                let (o0, o1, o2) = slider_values(old(self).spec_sliders(m));
                let n0 = if values@.len() > 0 {
                    values@[0] as int
                } else {
                    o0
                };
                let n1 = if values@.len() > 1 {
                    values@[1] as int
                } else {
                    o1
                };
                let n2 = if values@.len() > 2 {
                    values@[2] as int
                } else {
                    o2
                };
                slider_values(final(self).spec_sliders(m)) == (n0, n1, n2)
            }),
    {
        let cur = self.sliders_ref(m);
        let v0 = if values.len() > 0 {
            values[0]
        } else {
            cur[0].value
        };
        let v1 = if values.len() > 1 {
            values[1]
        } else {
            cur[1].value
        };
        let v2 = if values.len() > 2 {
            values[2]
        } else {
            cur[2].value
        };
        let fresh = crate::chooser::make_sliders(m, v0, v1, v2);
        match m {
            ModelId::Srgb => {
                self.srgb_sliders = fresh;
            },
            ModelId::Hsv => {
                self.hsv_sliders = fresh;
            },
            ModelId::Hsl => {
                self.hsl_sliders = fresh;
            },
            ModelId::Lab => {
                self.lab_sliders = fresh;
            },
            ModelId::Xyz => {
                self.xyz_sliders = fresh;
            },
        }
        self.propagate(m);
    }

    /// Switches the authoritative model by its identifier; an unrecognized
    /// identifier changes nothing.
    pub fn switch_model(&mut self, reference: &str)
        requires
            old(self).wf(),
        ensures
            final(self).wf(),
            final(self).spec_target() == old(self).spec_target(),
            spec_model_of_label(reference@) matches Some(m) ==> final(self).spec_authority() == m
                && final(self).spec_sliders(m) == old(self).spec_sliders(m) && final(self).synced(),
            spec_model_of_label(reference@) is None ==> *final(self) == *old(self),
    {
        match model_of_label(reference) {
            Some(m) => self.switch_to(m),
            None => (),
        }
    }

    /// Applies player values to the named model and re-propagates; an
    /// unrecognized identifier changes nothing.
    pub fn update_slider(&mut self, model: &str, values: &Vec<i64>)
        requires
            old(self).wf(),
        ensures
            final(self).wf(),
            final(self).spec_target() == old(self).spec_target(),
            spec_model_of_label(model@) matches Some(m) ==> final(self).spec_authority() == m
                && final(self).synced() && ({
                let (o0, o1, o2) = slider_values(old(self).spec_sliders(m));
                let n0 = if values@.len() > 0 {
                    values@[0] as int
                } else {
                    o0
                };
                let n1 = if values@.len() > 1 {
                    values@[1] as int
                } else {
                    o1
                };
                let n2 = if values@.len() > 2 {
                    values@[2] as int
                } else {
                    o2
                };
                slider_values(final(self).spec_sliders(m)) == (n0, n1, n2)
            }),
            spec_model_of_label(model@) is None ==> *final(self) == *old(self),
    {
        match model_of_label(model) {
            Some(m) => self.apply_values(m, values),
            None => (),
        }
    }

    /// The fixed list of model identifiers, in order.
    pub fn available_models(&self) -> (r: Vec<String>)
        ensures
            r@.len() == 5,
            r@[0]@ == "srgb"@,
            r@[1]@ == "hsv"@,
            r@[2]@ == "hsl"@,
            r@[3]@ == "lab"@,
            r@[4]@ == "xyz"@,
    {
        let mut r: Vec<String> = Vec::new();
        r.push("srgb".to_owned());
        r.push("hsv".to_owned());
        r.push("hsl".to_owned());
        r.push("lab".to_owned());
        r.push("xyz".to_owned());
        r
    }

    /// The display name of the named model ("Unknown" otherwise).
    pub fn model_name(&self, model: &str) -> (r: String)
        ensures
            r@ == spec_display_name(model@),
    {
        if str_eq(model, "srgb") {
            "sRGB".to_owned()
        } else if str_eq(model, "hsv") {
            "HSV".to_owned()
        } else if str_eq(model, "hsl") {
            "HSL".to_owned()
        } else if str_eq(model, "lab") {
            "CIELAB".to_owned()
        } else if str_eq(model, "xyz") {
            "CIEXYZ".to_owned()
        } else {
            "Unknown".to_owned()
        }
    }

    /// The reference link of the named model (empty otherwise).
    pub fn model_info_link(&self, model: &str) -> (r: String)
        ensures
            r@ == spec_info_link(model@),
    {
        if str_eq(model, "srgb") {
            "https://en.wikipedia.org/wiki/SRGB".to_owned()
        } else if str_eq(model, "rgb8") {
            "https://en.wikipedia.org/wiki/RGB_color_model".to_owned()
        } else if str_eq(model, "hsv") {
            "https://en.wikipedia.org/wiki/HSL_and_HSV".to_owned()
        } else if str_eq(model, "hsl") {
            "https://en.wikipedia.org/wiki/HSL_and_HSV".to_owned()
        } else if str_eq(model, "lab") {
            "https://en.wikipedia.org/wiki/CIELAB_color_space".to_owned()
        } else if str_eq(model, "xyz") {
            "https://en.wikipedia.org/wiki/CIE_1931_color_space".to_owned()
        } else {
            "".to_owned()
        }
    }

    /// The named model's controls, for rendering; `None` for an unrecognized
    /// identifier.
    pub fn model_sliders(&self, model: &str) -> (r: Option<Vec<Slider>>)
        requires
            self.wf(),
        ensures
            spec_model_of_label(model@) matches Some(m) ==> r matches Some(v) && v@
                == self.spec_sliders(m),
            spec_model_of_label(model@) is None ==> r is None,
    {
        match model_of_label(model) {
            Some(m) => {
                let s = self.sliders_ref(m);
                let mut out: Vec<Slider> = Vec::new();
                out.push(s[0]);
                out.push(s[1]);
                out.push(s[2]);
                proof {
                    assert(out@ =~= self.spec_sliders(m));
                }
                Some(out)
            },
            None => None,
        }
    }

    /// The canonical color currently shown by the named model; pure black
    /// for an unrecognized identifier.
    pub fn current_color(&self, model: &str) -> (c: Rgb)
        requires
            self.wf(),
        ensures
            spec_model_of_label(model@) matches Some(m) ==> (
            c.red as int,
            c.green as int,
            c.blue as int,
            ) == self.spec_color(m),
            spec_model_of_label(model@) is None ==> c == (Rgb { red: 0, green: 0, blue: 0 }),
            c.wf(),
    {
        match model_of_label(model) {
            Some(m) => self.current_color_of(m),
            None => Rgb { red: 0, green: 0, blue: 0 },
        }
    }
}

/// The model named by an identifier, if any ("srgb", "hsv", "hsl", "lab",
/// "xyz"; case-sensitive).
pub open spec fn spec_model_of_label(s: Seq<char>) -> Option<ModelId> {
    if s == "srgb"@ {
        Some(ModelId::Srgb)
    } else if s == "hsv"@ {
        Some(ModelId::Hsv)
    } else if s == "hsl"@ {
        Some(ModelId::Hsl)
    } else if s == "lab"@ {
        Some(ModelId::Lab)
    } else if s == "xyz"@ {
        Some(ModelId::Xyz)
    } else {
        None
    }
}

/// The display name of a model identifier.
pub open spec fn spec_display_name(s: Seq<char>) -> Seq<char> {
    if s == "srgb"@ {
        "sRGB"@
    } else if s == "hsv"@ {
        "HSV"@
    } else if s == "hsl"@ {
        "HSL"@
    } else if s == "lab"@ {
        "CIELAB"@
    } else if s == "xyz"@ {
        "CIEXYZ"@
    } else {
        "Unknown"@
    }
}

/// The reference link of a model identifier.
pub open spec fn spec_info_link(s: Seq<char>) -> Seq<char> {
    if s == "srgb"@ {
        "https://en.wikipedia.org/wiki/SRGB"@
    } else if s == "rgb8"@ {
        "https://en.wikipedia.org/wiki/RGB_color_model"@
    } else if s == "hsv"@ {
        "https://en.wikipedia.org/wiki/HSL_and_HSV"@
    } else if s == "hsl"@ {
        "https://en.wikipedia.org/wiki/HSL_and_HSV"@
    } else if s == "lab"@ {
        "https://en.wikipedia.org/wiki/CIELAB_color_space"@
    } else if s == "xyz"@ {
        "https://en.wikipedia.org/wiki/CIE_1931_color_space"@
    } else {
        ""@
    }
}

/// String equality through the standard library's `String` comparison.
fn str_eq(a: &str, b: &str) -> (r: bool)
    ensures
        r == (a@ == b@),
{
    a.to_owned() == b.to_owned()
}

/// The model named by an identifier.
pub fn model_of_label(label: &str) -> (r: Option<ModelId>)
    ensures
        r == spec_model_of_label(label@),
{
    if str_eq(label, "srgb") {
        Some(ModelId::Srgb)
    } else if str_eq(label, "hsv") {
        Some(ModelId::Hsv)
    } else if str_eq(label, "hsl") {
        Some(ModelId::Hsl)
    } else if str_eq(label, "lab") {
        Some(ModelId::Lab)
    } else if str_eq(label, "xyz") {
        Some(ModelId::Xyz)
    } else {
        None
    }
}

} // verus!
