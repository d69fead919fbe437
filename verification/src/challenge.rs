//! The game challenge: a randomly drawn target color, the acceptability
//! filter that rejects degenerate targets, and the target accessor.

use crate::color::Rgb;
use crate::hsv::{spec_rgb_max, spec_rgb_min};
use rand::RngExt;
use vstd::prelude::*;

verus! {

/// Why a color is rejected as a game target.
#[derive(Clone, Copy, Debug, PartialEq, Eq, Structural)]
pub enum ExcludeReason {
    TooDark,
    TooBright,
    LowSaturation,
    HighSaturation,
}

impl ExcludeReason {
    /// A short human-readable description of the verdict.
    pub fn description(&self) -> (r: &'static str)
        ensures
            r@ == match *self {
                ExcludeReason::TooDark => "Too dark"@,
                ExcludeReason::TooBright => "Too bright"@,
                ExcludeReason::LowSaturation => "Low saturation"@,
                ExcludeReason::HighSaturation => "High saturation"@,
            },
    {
        match self {
            ExcludeReason::TooDark => "Too dark",
            ExcludeReason::TooBright => "Too bright",
            ExcludeReason::LowSaturation => "Low saturation",
            ExcludeReason::HighSaturation => "High saturation",
        }
    }

    /// The identifier of the verdict at the query boundary.
    pub fn boundary_label(&self) -> (r: &'static str)
        ensures
            r@ == match *self {
                ExcludeReason::TooDark => "too_dark"@,
                ExcludeReason::TooBright => "too_bright"@,
                ExcludeReason::LowSaturation => "low_saturation"@,
                ExcludeReason::HighSaturation => "high_saturation"@,
            },
    {
        match self {
            ExcludeReason::TooDark => "too_dark",
            ExcludeReason::TooBright => "too_bright",
            ExcludeReason::LowSaturation => "low_saturation",
            ExcludeReason::HighSaturation => "high_saturation",
        }
    }
}

/// The acceptability verdict on a canonical sRGB color, checked in order:
/// the channel sum against 0.24 and 2.76, then the exact HSV saturation
/// against 0.15 and 0.9.
pub open spec fn spec_is_excluded(r: int, g: int, b: int) -> Option<ExcludeReason> {
    if r + g + b < 240000 {
        Some(ExcludeReason::TooDark)
    } else if r + g + b > 2760000 {
        Some(ExcludeReason::TooBright)
    } else {
        let mx = spec_rgb_max(r, g, b);
        let d = mx - spec_rgb_min(r, g, b);
        if d * 20 < mx * 3 {
            Some(ExcludeReason::LowSaturation)
        } else if d * 10 > mx * 9 {
            Some(ExcludeReason::HighSaturation)
        } else {
            None
        }
    }
}

/// Relies on rand's `RngExt::random_range` on the thread generator: a draw
/// within the given inclusive range (it panics only on an empty range, and
/// `0..=bound` is never empty).
#[verifier::external_body]
fn draw_in(bound: u32) -> (r: u32)
    ensures
        r <= bound,
{
    rand::rng().random_range(0..=bound)
}

/// A challenge: the immutable target color the player tries to match.
pub struct ColorChallenge {
    target: Rgb,
}

impl ColorChallenge {
    /// The target color.
    pub closed spec fn spec_target(self) -> Rgb {
        self.target
    }

    /// The target is canonical and was accepted by the exclusion filter.
    pub open spec fn wf(self) -> bool {
        self.spec_target().wf() && spec_is_excluded(
            self.spec_target().red as int,
            self.spec_target().green as int,
            self.spec_target().blue as int,
        ) is None
    }

    /// The acceptability verdict on a candidate target.
    pub fn is_excluded(color: &Rgb) -> (r: Option<ExcludeReason>)
        requires
            color.wf(),
        ensures
            r == spec_is_excluded(color.red as int, color.green as int, color.blue as int),
    {
        let sum = color.red + color.green + color.blue;
        if sum < 240_000 {
            return Some(ExcludeReason::TooDark);
        }
        if sum > 2_760_000 {
            return Some(ExcludeReason::TooBright);
        }
        let mx = if color.red >= color.green && color.red >= color.blue {
            color.red
        } else if color.green >= color.blue {
            color.green
        } else {
            color.blue
        };
        let mn = if color.red <= color.green && color.red <= color.blue {
            color.red
        } else if color.green <= color.blue {
            color.green
        } else {
            color.blue
        };
        let d = mx - mn;
        if d * 20 < mx * 3 {
            Some(ExcludeReason::LowSaturation)
        } else if d * 10 > mx * 9 {
            Some(ExcludeReason::HighSaturation)
        } else {
            None
        }
    }

    pub fn target_color(&self) -> (r: &Rgb)
        ensures
            *r == self.spec_target(),
    {
        &self.target
    }

    /// A new challenge: uniform candidate colors are drawn and rejected
    /// until the filter accepts one. The retry loop is bounded so that it
    /// provably terminates; if every draw within the bound is rejected, a
    /// fixed acceptable color stands in (the rejection region is small, so
    /// this is vanishingly rare).
    pub fn new() -> (c: ColorChallenge)
        ensures
            c.wf(),
    {
        let mut attempts: u32 = 0;
        while attempts < 64
            invariant
                attempts <= 64,
            decreases 64 - attempts,
        {
            let red = draw_in(1_000_000) as i64;
            let green = draw_in(1_000_000) as i64;
            let blue = draw_in(1_000_000) as i64;
            let candidate = Rgb { red, green, blue };
            if Self::is_excluded(&candidate).is_none() {
                return ColorChallenge { target: candidate };
            }
            attempts = attempts + 1;
        }
        let fallback = Rgb { red: 600_000, green: 300_000, blue: 300_000 };
        ColorChallenge { target: fallback }
    }
}

} // verus!
