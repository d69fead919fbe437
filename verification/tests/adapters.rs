//! Conversion behavior of the six color-model adapters.

use color_recall::challenge::ColorChallenge;
use color_recall::chooser::{
    chooser_convert, HSLChooser, HSVChooser, LABChooser, LCHChooser, ModelId, RGBChooser,
    XYZChooser,
};
use color_recall::color::Rgb;
use color_recall::slider::Slider;
use palette::{FromColor, Hsv, Lab as PaletteLab, Lch as PaletteLch, Srgb, Xyz as PaletteXyz};

const UNIT: i64 = 1_000_000;

fn rgb(r: i64, g: i64, b: i64) -> Rgb {
    Rgb { red: r, green: g, blue: b }
}

fn close(a: i64, b: i64, tol: i64) -> bool {
    (a - b).abs() <= tol
}

fn assert_rgb_close(a: &Rgb, b: &Rgb, tol: i64) {
    assert!(
        close(a.red, b.red, tol) && close(a.green, b.green, tol) && close(a.blue, b.blue, tol),
        "colors differ: ({}, {}, {}) vs ({}, {}, {}) tol {}",
        a.red,
        a.green,
        a.blue,
        b.red,
        b.green,
        b.blue,
        tol
    );
}

fn sample_colors() -> Vec<Rgb> {
    vec![
        rgb(200_000, 500_000, 800_000),
        rgb(600_000, 300_000, 300_000),
        rgb(900_000, 100_000, 400_000),
        rgb(120_000, 730_000, 250_000),
        rgb(1_000_000, 0, 0),
        rgb(500_000, 500_000, 500_000),
        rgb(0, 0, 0),
        rgb(1_000_000, 1_000_000, 1_000_000),
    ]
}

#[test]
fn rgb_initial_controls_exact() {
    let sliders = RGBChooser.init_sliders();
    let expect = [("R", 500_000), ("G", 500_000), ("B", 500_000)];
    assert_eq!(sliders.len(), 3);
    for (s, (name, value)) in sliders.iter().zip(expect.iter()) {
        assert_eq!(s.name, *name);
        assert_eq!(s.value, *value);
        assert_eq!(s.min, 0);
        assert_eq!(s.max, UNIT);
    }
}

#[test]
fn initial_controls_of_other_models() {
    let hsv = HSVChooser.init_sliders();
    assert_eq!(
        hsv.iter().map(|s| (s.name, s.value, s.min, s.max)).collect::<Vec<_>>(),
        vec![
            ("H", 180_000_000, 0, 360_000_000),
            ("S", 500_000, 0, UNIT),
            ("V", 500_000, 0, UNIT)
        ]
    );
    let lab = LABChooser.init_sliders();
    assert_eq!(
        lab.iter().map(|s| (s.name, s.value, s.min, s.max)).collect::<Vec<_>>(),
        vec![
            ("L", 50_000_000, 0, 100_000_000),
            ("a", 64_000_000, -128_000_000, 128_000_000),
            ("b", 64_000_000, -128_000_000, 128_000_000)
        ]
    );
    let lch = LCHChooser.init_sliders();
    assert_eq!(
        lch.iter().map(|s| (s.name, s.value, s.min, s.max)).collect::<Vec<_>>(),
        vec![
            ("L", 50_000_000, 0, 100_000_000),
            ("C", 64_000_000, 0, 128_000_000),
            ("H", 180_000_000, 0, 360_000_000)
        ]
    );
}

#[test]
fn rgb_adapter_round_trip_is_exact() {
    for c in sample_colors() {
        let sliders = RGBChooser::from_srgb(c);
        let back = RGBChooser.as_srgb(&sliders);
        assert_eq!((back.red, back.green, back.blue), (c.red, c.green, c.blue));
    }
}

#[test]
fn hsv_adapter_round_trip() {
    for c in sample_colors() {
        let sliders = HSVChooser::from_srgb(c);
        let back = HSVChooser.as_srgb(&sliders);
        assert_rgb_close(&back, &c, 5);
    }
}

#[test]
fn hsl_adapter_round_trip_on_grays() {
    // The HSL adapter feeds its (hue, saturation, lightness) triple through
    // the HSV formula on the way forward (a deliberate quirk of the game); the two
    // readings coincide exactly on achromatic colors.
    for v in [0i64, 250_000, 500_000, 750_000, 1_000_000] {
        let c = rgb(v, v, v);
        let sliders = HSLChooser::from_srgb(c);
        let back = HSLChooser.as_srgb(&sliders);
        assert_rgb_close(&back, &c, 5);
    }
}

#[test]
fn xyz_adapter_round_trip() {
    for c in sample_colors() {
        let sliders = XYZChooser::from_srgb(c);
        let back = XYZChooser.as_srgb(&sliders);
        assert_rgb_close(&back, &c, 2_000);
    }
}

#[test]
fn lab_adapter_round_trip() {
    for c in sample_colors() {
        let sliders = LABChooser::from_srgb(c);
        let back = LABChooser.as_srgb(&sliders);
        assert_rgb_close(&back, &c, 2_000);
    }
}

#[test]
fn lch_adapter_round_trip() {
    for c in sample_colors() {
        let sliders = LCHChooser::from_srgb(c);
        let back = LCHChooser.as_srgb(&sliders);
        assert_rgb_close(&back, &c, 6_000);
    }
}

#[test]
fn cross_model_consistency() {
    // Converting any model's controls into another model preserves the
    // canonical color within tolerance.
    // Any model may be the source. As a destination, HSL is left out: its
    // forward conversion feeds the HSL triple through the HSV formula (a
    // deliberate quirk of the game), so its displayed color is not the shared one
    // for chromatic colors.
    let models = [ModelId::Srgb, ModelId::Hsv, ModelId::Hsl, ModelId::Lab, ModelId::Xyz];
    let dests = [ModelId::Srgb, ModelId::Hsv, ModelId::Lab, ModelId::Xyz];
    for c in [rgb(200_000, 500_000, 800_000), rgb(600_000, 300_000, 300_000)] {
        for src in models {
            for dst in dests {
                let mut dst_sliders: Vec<Slider> = Vec::new();
                let src_sliders = color_recall::chooser::model_from_rgb(src, &c);
                let src_color =
                    chooser_convert(src, &src_sliders, dst, &mut dst_sliders);
                let dst_color = color_recall::chooser::model_to_rgb(dst, &dst_sliders);
                assert_rgb_close(&dst_color, &src_color, 4_000);
            }
        }
    }
}

#[test]
fn conversion_into_srgb_is_exact() {
    // The canonical color survives conversion into the sRGB model exactly.
    for c in sample_colors() {
        for src in [ModelId::Hsv, ModelId::Lab, ModelId::Xyz] {
            let src_sliders = color_recall::chooser::model_from_rgb(src, &c);
            let mut dst_sliders: Vec<Slider> = Vec::new();
            let src_color = chooser_convert(src, &src_sliders, ModelId::Srgb, &mut dst_sliders);
            let dst_color = color_recall::chooser::model_to_rgb(ModelId::Srgb, &dst_sliders);
            assert_eq!(
                (dst_color.red, dst_color.green, dst_color.blue),
                (src_color.red, src_color.green, src_color.blue)
            );
        }
    }
}

#[test]
fn white_maps_to_reference_coordinates() {
    let sliders = RGBChooser::from_srgb(rgb(UNIT, UNIT, UNIT));
    let xyz = RGBChooser.compute_xyz(&sliders);
    assert!(close(xyz.x, 950_470, 200), "X of white: {}", xyz.x);
    assert!(close(xyz.y, 1_000_000, 200), "Y of white: {}", xyz.y);
    assert!(close(xyz.z, 1_088_830, 200), "Z of white: {}", xyz.z);
    let lab = RGBChooser.compute_lab(&sliders);
    assert!(close(lab.l, 100_000_000, 2_000), "L of white: {}", lab.l);
    assert!(close(lab.a, 0, 2_000), "a of white: {}", lab.a);
    assert!(close(lab.b, 0, 2_000), "b of white: {}", lab.b);
}

#[test]
fn transfer_function_matches_reference_values() {
    // 0.5 encoded -> 0.214041 linear; scaled through the XYZ row of Y for a
    // gray, Y equals the linear intensity.
    let sliders = RGBChooser::from_srgb(rgb(500_000, 500_000, 500_000));
    let xyz = RGBChooser.compute_xyz(&sliders);
    assert!(close(xyz.y, 214_041, 300), "Y of mid gray: {}", xyz.y);
}

#[test]
fn out_of_range_controls_convert_saturated() {
    // Values outside the control bounds are evaluated at their clamped
    // positions, so conversion stays total.
    let sliders = vec![
        Slider::new_linear("R", 5_000_000, 0, UNIT),
        Slider::new_linear("G", -3, 0, UNIT),
        Slider::new_linear("B", 250_000, 0, UNIT),
    ];
    let c = RGBChooser.as_srgb(&sliders);
    assert_eq!((c.red, c.green, c.blue), (UNIT, 0, 250_000));
}

#[test]
fn agrees_with_palette_hsv() {
    for c in [rgb(200_000, 500_000, 800_000), rgb(900_000, 100_000, 400_000)] {
        let ours = HSVChooser::from_srgb(c);
        let theirs = Hsv::from_color(Srgb::new(
            c.red as f32 / 1e6,
            c.green as f32 / 1e6,
            c.blue as f32 / 1e6,
        ));
        let hue = theirs.hue.into_positive_degrees() as f64;
        assert!(
            ((ours[0].value as f64 / 1e6) - hue).abs() < 0.01,
            "hue: {} vs {}",
            ours[0].value,
            hue
        );
        assert!(((ours[1].value as f64 / 1e6) - theirs.saturation as f64).abs() < 1e-4);
        assert!(((ours[2].value as f64 / 1e6) - theirs.value as f64).abs() < 1e-4);
    }
}

#[test]
fn agrees_with_palette_lab() {
    for c in [rgb(300_000, 600_000, 200_000), rgb(600_000, 300_000, 300_000)] {
        let sliders = LABChooser::from_srgb(c);
        let theirs = PaletteLab::from_color(Srgb::new(
            c.red as f32 / 1e6,
            c.green as f32 / 1e6,
            c.blue as f32 / 1e6,
        ));
        assert!(
            ((sliders[0].value as f64 / 1e6) - theirs.l as f64).abs() < 0.2,
            "L: {} vs {}",
            sliders[0].value,
            theirs.l
        );
        assert!(
            ((sliders[1].value as f64 / 1e6) - theirs.a as f64).abs() < 0.5,
            "a: {} vs {}",
            sliders[1].value,
            theirs.a
        );
        assert!(
            ((sliders[2].value as f64 / 1e6) - theirs.b as f64).abs() < 0.5,
            "b: {} vs {}",
            sliders[2].value,
            theirs.b
        );
    }
}

#[test]
fn excluded_target_metadata() {
    // The adapters' metadata carries the fixed names.
    assert_eq!(RGBChooser.get_meta().name, "RGB");
    assert_eq!(HSVChooser.get_meta().name, "HSV");
    assert_eq!(HSLChooser.get_meta().name, "HSL");
    assert_eq!(LABChooser.get_meta().name, "CIELAB");
    assert_eq!(XYZChooser.get_meta().name, "CIEXYZ");
    assert_eq!(LCHChooser.get_meta().name, "CIELCH");
    assert_eq!(
        RGBChooser.get_meta().slider_names,
        vec!["Red", "Green", "Blue"]
    );
    let _ = ColorChallenge::is_excluded(&rgb(600_000, 300_000, 300_000));
}

#[test]
fn agrees_with_palette_lch() {
    for c in [rgb(300_000, 600_000, 200_000), rgb(700_000, 200_000, 500_000)] {
        let sliders = LCHChooser::from_srgb(c);
        let theirs = PaletteLch::from_color(Srgb::new(
            c.red as f32 / 1e6,
            c.green as f32 / 1e6,
            c.blue as f32 / 1e6,
        ));
        assert!(
            ((sliders[1].value as f64 / 1e6) - theirs.chroma as f64).abs() < 0.5,
            "chroma: {} vs {}",
            sliders[1].value,
            theirs.chroma
        );
        let hue = theirs.hue.into_positive_degrees() as f64;
        assert!(
            ((sliders[2].value as f64 / 1e6) - hue).abs() < 0.5,
            "hue: {} vs {}",
            sliders[2].value,
            hue
        );
    }
}

#[test]
fn agrees_with_palette_xyz() {
    for c in [rgb(300_000, 600_000, 200_000), rgb(80_000, 150_000, 900_000)] {
        let sliders = XYZChooser::from_srgb(c);
        let theirs = PaletteXyz::from_color(Srgb::new(
            c.red as f32 / 1e6,
            c.green as f32 / 1e6,
            c.blue as f32 / 1e6,
        ));
        assert!(((sliders[0].value as f64 / 1e6) - theirs.x as f64).abs() < 2e-3);
        assert!(((sliders[1].value as f64 / 1e6) - theirs.y as f64).abs() < 2e-3);
        assert!(((sliders[2].value as f64 / 1e6) - theirs.z as f64).abs() < 2e-3);
    }
}
