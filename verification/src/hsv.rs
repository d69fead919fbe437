//! HSV and HSL conversions on micro-unit channels: hue in micro-degrees
//! `[0, 360 * UNIT]`, saturation / value / lightness in `[0, UNIT]`.

use crate::color::Rgb;
use crate::fixed::{mul_div, lemma_mul_div_le, UNIT};
use vstd::prelude::*;
use vstd::arithmetic::div_mod::lemma_div_is_ordered;

verus! {

/// A full hue turn in micro-degrees.
pub const HUE_FULL: i64 = 360_000_000;

/// One hue sector (60 degrees) in micro-degrees.
pub const HUE_SECTOR: i64 = 60_000_000;

/// The hue sector index, 0 to 5 (360 degrees wraps to sector 0).
pub open spec fn spec_hsv_sector(h: int) -> int {
    (h / 60000000) % 6
}

/// Position inside the hue sector, scaled to `[0, UNIT)`.
pub open spec fn spec_hsv_frac(h: int) -> int {
    (h % 60000000) / 60
}

/// The chroma of an HSV color, `v * s`.
pub open spec fn spec_hsv_chroma(s: int, v: int) -> int {
    v * s / 1000000
}

/// Red channel of the sRGB image of an HSV color.
pub open spec fn spec_hsv_rgb_r(h: int, s: int, v: int) -> int {
    let c = spec_hsv_chroma(s, v);
    let f = spec_hsv_frac(h);
    let m = v - c;
    let k = spec_hsv_sector(h);
    if k == 0 || k == 5 {
        c + m
    } else if k == 1 {
        c * (1000000 - f) / 1000000 + m
    } else if k == 4 {
        c * f / 1000000 + m
    } else {
        m
    }
}

/// Green channel of the sRGB image of an HSV color.
pub open spec fn spec_hsv_rgb_g(h: int, s: int, v: int) -> int {
    let c = spec_hsv_chroma(s, v);
    let f = spec_hsv_frac(h);
    let m = v - c;
    let k = spec_hsv_sector(h);
    if k == 1 || k == 2 {
        c + m
    } else if k == 0 {
        c * f / 1000000 + m
    } else if k == 3 {
        c * (1000000 - f) / 1000000 + m
    } else {
        m
    }
}

/// Blue channel of the sRGB image of an HSV color.
pub open spec fn spec_hsv_rgb_b(h: int, s: int, v: int) -> int {
    let c = spec_hsv_chroma(s, v);
    let f = spec_hsv_frac(h);
    let m = v - c;
    let k = spec_hsv_sector(h);
    if k == 3 || k == 4 {
        c + m
    } else if k == 2 {
        c * f / 1000000 + m
    } else if k == 5 {
        c * (1000000 - f) / 1000000 + m
    } else {
        m
    }
}

/// HSV to sRGB by the standard sector formula.
pub fn hsv_to_rgb(h: i64, s: i64, v: i64) -> (c: Rgb)
    requires
        0 <= h <= HUE_FULL,
        0 <= s <= UNIT,
        0 <= v <= UNIT,
    ensures
        c.red == spec_hsv_rgb_r(h as int, s as int, v as int),
        c.green == spec_hsv_rgb_g(h as int, s as int, v as int),
        c.blue == spec_hsv_rgb_b(h as int, s as int, v as int),
        c.wf(),
{
    proof {
        lemma_mul_div_le(v as int, s as int, v as int, 1000000, 1000000);
        vstd::arithmetic::div_mod::lemma_div_multiples_vanish(v as int, 1000000);
    }
    let ch: u64 = mul_div(v as u64, s as u64, 1_000_000);
    let f: u64 = ((h as u64) % 60_000_000) / 60;
    proof {
        lemma_div_is_ordered((h as int) % 60000000, 59999999int, 60);
        lemma_mul_div_le(ch as int, f as int, ch as int, 1000000, 1000000);
        lemma_mul_div_le(ch as int, 1000000 - f, ch as int, 1000000, 1000000);
        vstd::arithmetic::div_mod::lemma_div_multiples_vanish(ch as int, 1000000);
    }
    let xr: u64 = mul_div(ch, f, 1_000_000);
    let xf: u64 = mul_div(ch, 1_000_000 - f, 1_000_000);
    let m: u64 = (v as u64) - ch;
    let k: u64 = ((h as u64) / 60_000_000) % 6;
    let (r, g, b): (u64, u64, u64) = if k == 0 {
        (ch + m, xr + m, m)
    } else if k == 1 {
        (xf + m, ch + m, m)
    } else if k == 2 {
        (m, ch + m, xr + m)
    } else if k == 3 {
        (m, xf + m, ch + m)
    } else if k == 4 {
        (xr + m, m, ch + m)
    } else {
        (ch + m, m, xf + m)
    };
    Rgb { red: r as i64, green: g as i64, blue: b as i64 }
}

/// The largest sRGB channel.
pub open spec fn spec_rgb_max(r: int, g: int, b: int) -> int {
    if r >= g && r >= b {
        r
    } else if g >= b {
        g
    } else {
        b
    }
}

/// The smallest sRGB channel.
pub open spec fn spec_rgb_min(r: int, g: int, b: int) -> int {
    if r <= g && r <= b {
        r
    } else if g <= b {
        g
    } else {
        b
    }
}

/// Hue of an sRGB color in micro-degrees (0 for grays).
pub open spec fn spec_rgb_hue(r: int, g: int, b: int) -> int {
    let mx = spec_rgb_max(r, g, b);
    let d = mx - spec_rgb_min(r, g, b);
    if d == 0 {
        0
    } else if mx == r {
        if g >= b {
            (g - b) * 60000000 / d
        } else {
            360000000 - (b - g) * 60000000 / d
        }
    } else if mx == g {
        if b >= r {
            120000000 + (b - r) * 60000000 / d
        } else {
            120000000 - (r - b) * 60000000 / d
        }
    } else {
        if r >= g {
            240000000 + (r - g) * 60000000 / d
        } else {
            240000000 - (g - r) * 60000000 / d
        }
    }
}

/// HSV saturation of an sRGB color (0 for black).
pub open spec fn spec_rgb_hsv_sat(r: int, g: int, b: int) -> int {
    let mx = spec_rgb_max(r, g, b);
    let d = mx - spec_rgb_min(r, g, b);
    if mx == 0 {
        0
    } else {
        d * 1000000 / mx
    }
}

/// HSV value of an sRGB color: the largest channel.
pub open spec fn spec_rgb_hsv_val(r: int, g: int, b: int) -> int {
    spec_rgb_max(r, g, b)
}

fn rgb_max(c: &Rgb) -> (mx: i64)
    requires
        c.wf(),
    ensures
        mx == spec_rgb_max(c.red as int, c.green as int, c.blue as int),
{
    if c.red >= c.green && c.red >= c.blue {
        c.red
    } else if c.green >= c.blue {
        c.green
    } else {
        c.blue
    }
}

fn rgb_min(c: &Rgb) -> (mn: i64)
    requires
        c.wf(),
    ensures
        mn == spec_rgb_min(c.red as int, c.green as int, c.blue as int),
{
    if c.red <= c.green && c.red <= c.blue {
        c.red
    } else if c.green <= c.blue {
        c.green
    } else {
        c.blue
    }
}

/// Hue of an sRGB color, shared by the HSV and HSL readings.
pub fn rgb_hue(c: &Rgb) -> (h: i64)
    requires
        c.wf(),
    ensures
        h == spec_rgb_hue(c.red as int, c.green as int, c.blue as int),
        0 <= h <= HUE_FULL,
{
    let mx = rgb_max(c);
    let mn = rgb_min(c);
    let d = mx - mn;
    if d == 0 {
        0
    } else if mx == c.red {
        if c.green >= c.blue {
            proof {
                lemma_mul_div_le((c.green - c.blue) as int, 60000000, d as int, 60000000, d as int);
                vstd::arithmetic::div_mod::lemma_div_multiples_vanish(60000000, d as int);
            }
            (mul_div((c.green - c.blue) as u64, 60_000_000, d as u64)) as i64
        } else {
            proof {
                lemma_mul_div_le((c.blue - c.green) as int, 60000000, d as int, 60000000, d as int);
                vstd::arithmetic::div_mod::lemma_div_multiples_vanish(60000000, d as int);
            }
            360_000_000 - (mul_div((c.blue - c.green) as u64, 60_000_000, d as u64)) as i64
        }
    } else if mx == c.green {
        if c.blue >= c.red {
            proof {
                lemma_mul_div_le((c.blue - c.red) as int, 60000000, d as int, 60000000, d as int);
                vstd::arithmetic::div_mod::lemma_div_multiples_vanish(60000000, d as int);
            }
            120_000_000 + (mul_div((c.blue - c.red) as u64, 60_000_000, d as u64)) as i64
        } else {
            proof {
                lemma_mul_div_le((c.red - c.blue) as int, 60000000, d as int, 60000000, d as int);
                vstd::arithmetic::div_mod::lemma_div_multiples_vanish(60000000, d as int);
            }
            120_000_000 - (mul_div((c.red - c.blue) as u64, 60_000_000, d as u64)) as i64
        }
    } else {
        if c.red >= c.green {
            proof {
                lemma_mul_div_le((c.red - c.green) as int, 60000000, d as int, 60000000, d as int);
                vstd::arithmetic::div_mod::lemma_div_multiples_vanish(60000000, d as int);
            }
            240_000_000 + (mul_div((c.red - c.green) as u64, 60_000_000, d as u64)) as i64
        } else {
            proof {
                lemma_mul_div_le((c.green - c.red) as int, 60000000, d as int, 60000000, d as int);
                vstd::arithmetic::div_mod::lemma_div_multiples_vanish(60000000, d as int);
            }
            240_000_000 - (mul_div((c.green - c.red) as u64, 60_000_000, d as u64)) as i64
        }
    }
}

/// HSV saturation and value of an sRGB color.
pub fn rgb_hsv_sat_val(c: &Rgb) -> (sv: (i64, i64))
    requires
        c.wf(),
    ensures
        sv.0 == spec_rgb_hsv_sat(c.red as int, c.green as int, c.blue as int),
        sv.1 == spec_rgb_hsv_val(c.red as int, c.green as int, c.blue as int),
        0 <= sv.0 <= UNIT,
        0 <= sv.1 <= UNIT,
{
    let mx = rgb_max(c);
    let mn = rgb_min(c);
    let d = mx - mn;
    if mx == 0 {
        (0, 0)
    } else {
        proof {
            lemma_mul_div_le(d as int, 1000000, mx as int, 1000000, mx as int);
            vstd::arithmetic::div_mod::lemma_div_multiples_vanish(1000000, mx as int);
        }
        let s = mul_div(d as u64, 1_000_000, mx as u64);
        (s as i64, mx)
    }
}

/// HSL lightness of an sRGB color, `(max + min) / 2`.
pub open spec fn spec_rgb_hsl_light(r: int, g: int, b: int) -> int {
    (spec_rgb_max(r, g, b) + spec_rgb_min(r, g, b)) / 2
}

/// HSL saturation of an sRGB color, `d / (1 - |2 light - 1|)` (0 for grays).
pub open spec fn spec_rgb_hsl_sat(r: int, g: int, b: int) -> int {
    let mx = spec_rgb_max(r, g, b);
    let mn = spec_rgb_min(r, g, b);
    let d = mx - mn;
    if d == 0 {
        0
    } else {
        let denom = if mx + mn <= 1000000 {
            mx + mn
        } else {
            2000000 - (mx + mn)
        };
        d * 1000000 / denom
    }
}

/// HSL saturation and lightness of an sRGB color.
pub fn rgb_hsl_sat_light(c: &Rgb) -> (sl: (i64, i64))
    requires
        c.wf(),
    ensures
        sl.0 == spec_rgb_hsl_sat(c.red as int, c.green as int, c.blue as int),
        sl.1 == spec_rgb_hsl_light(c.red as int, c.green as int, c.blue as int),
        0 <= sl.0 <= UNIT,
        0 <= sl.1 <= UNIT,
{
    let mx = rgb_max(c);
    let mn = rgb_min(c);
    let d = mx - mn;
    let light = ((mx + mn) as u64 / 2) as i64;
    proof {
        lemma_div_is_ordered((mx + mn) as int, 2000000int, 2);
    }
    if d == 0 {
        (0, light)
    } else {
        let denom: i64 = if mx + mn <= UNIT {
            mx + mn
        } else {
            2 * UNIT - (mx + mn)
        };
        proof {
            lemma_mul_div_le(d as int, 1000000, denom as int, 1000000, denom as int);
            vstd::arithmetic::div_mod::lemma_div_multiples_vanish(1000000, denom as int);
        }
        let s = mul_div(d as u64, 1_000_000, denom as u64);
        (s as i64, light)
    }
}

} // verus!
