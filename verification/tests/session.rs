//! The game session: synchronization, switching, and the query boundary.

use color_recall::challenge::ColorChallenge;
use color_recall::session::{model_of_label, GameContext};
use color_recall::chooser::ModelId;
use palette::color_difference::ImprovedCiede2000;

fn snapshot(g: &GameContext) -> Vec<(i64, i64, i64)> {
    ["srgb", "hsv", "hsl", "lab", "xyz"]
        .iter()
        .map(|m| {
            let s = g.model_sliders(m).unwrap();
            (s[0].value, s[1].value, s[2].value)
        })
        .collect()
}

#[test]
fn new_session_has_accepted_target_and_default_controls() {
    let g = GameContext::new();
    assert_eq!(ColorChallenge::is_excluded(&g.target_color()), None);
    assert_eq!(
        snapshot(&g),
        vec![
            (500_000, 500_000, 500_000),
            (180_000_000, 500_000, 500_000),
            (180_000_000, 500_000, 500_000),
            (50_000_000, 64_000_000, 64_000_000),
            (500_000, 500_000, 500_000),
        ]
    );
}

#[test]
fn available_models_fixed_list() {
    let g = GameContext::new();
    let expected: Vec<String> =
        ["srgb", "hsv", "hsl", "lab", "xyz"].iter().map(|s| s.to_string()).collect();
    assert_eq!(g.available_models(), expected);
}

#[test]
fn model_names_and_links() {
    let g = GameContext::new();
    assert_eq!(g.model_name("srgb"), "sRGB");
    assert_eq!(g.model_name("hsv"), "HSV");
    assert_eq!(g.model_name("hsl"), "HSL");
    assert_eq!(g.model_name("lab"), "CIELAB");
    assert_eq!(g.model_name("xyz"), "CIEXYZ");
    assert_eq!(g.model_name("cmyk"), "Unknown");
    assert_eq!(g.model_info_link("srgb"), "https://en.wikipedia.org/wiki/SRGB");
    assert_eq!(g.model_info_link("rgb8"), "https://en.wikipedia.org/wiki/RGB_color_model");
    assert_eq!(g.model_info_link("hsl"), "https://en.wikipedia.org/wiki/HSL_and_HSV");
    assert_eq!(g.model_info_link("nope"), "");
}

#[test]
fn unknown_model_yields_black_and_none() {
    let g = GameContext::new();
    let c = g.current_color("bogus");
    assert_eq!((c.red, c.green, c.blue), (0, 0, 0));
    assert!(g.model_sliders("bogus").is_none());
    assert_eq!(model_of_label("bogus"), None);
    assert_eq!(model_of_label("hsl"), Some(ModelId::Hsl));
}

#[test]
fn switching_from_gray_rgb_gives_hsv_gray() {
    let mut g = GameContext::new();
    g.switch_model("srgb");
    let hsv = g.model_sliders("hsv").unwrap();
    assert_eq!((hsv[0].value, hsv[1].value, hsv[2].value), (0, 0, 500_000));
}

#[test]
fn switch_to_authoritative_model_is_a_no_op() {
    let mut g = GameContext::new();
    g.update_slider("lab", &vec![55_000_000, -20_000_000, 30_000_000]);
    let before = snapshot(&g);
    g.switch_model("lab");
    assert_eq!(snapshot(&g), before);
    g.switch_model("lab");
    assert_eq!(snapshot(&g), before);
}

#[test]
fn switching_unknown_model_is_a_no_op() {
    let mut g = GameContext::new();
    let before = snapshot(&g);
    g.switch_model("cmyk");
    assert_eq!(snapshot(&g), before);
    g.update_slider("cmyk", &vec![1, 2, 3]);
    assert_eq!(snapshot(&g), before);
}

#[test]
fn editing_a_model_propagates_to_all_others() {
    let mut g = GameContext::new();
    g.update_slider("hsv", &vec![200_000_000, 700_000, 600_000]);
    let hsv_color = g.current_color("hsv");
    // The HSL model is left out here: its forward conversion feeds the HSL
    // triple through the HSV formula (a deliberate quirk of the game), so the
    // color it shows is not the shared one. Its stored controls are still the
    // genuine HSL reading, checked below.
    for other in ["srgb", "lab", "xyz"] {
        let c = g.current_color(other);
        assert!(
            (c.red - hsv_color.red).abs() <= 4_000
                && (c.green - hsv_color.green).abs() <= 4_000
                && (c.blue - hsv_color.blue).abs() <= 4_000,
            "{} shows ({}, {}, {}), hsv shows ({}, {}, {})",
            other,
            c.red,
            c.green,
            c.blue,
            hsv_color.red,
            hsv_color.green,
            hsv_color.blue
        );
    }
    // The sRGB reading of the edited color is exact.
    let srgb = g.current_color("srgb");
    assert_eq!(
        (srgb.red, srgb.green, srgb.blue),
        (hsv_color.red, hsv_color.green, hsv_color.blue)
    );
    // The HSL controls hold the genuine HSL reading of the shared color.
    let hsl = g.model_sliders("hsl").unwrap();
    assert!((hsl[0].value - 200_000_000).abs() <= 2_000, "hsl hue: {}", hsl[0].value);
    let mx = hsv_color.red.max(hsv_color.green).max(hsv_color.blue);
    let mn = hsv_color.red.min(hsv_color.green).min(hsv_color.blue);
    assert!((hsl[2].value - (mx + mn) / 2).abs() <= 2, "hsl lightness: {}", hsl[2].value);
}

#[test]
fn values_are_stored_verbatim_and_shown_clamped() {
    let mut g = GameContext::new();
    g.update_slider("srgb", &vec![2_000_000, -5, 250_000]);
    let s = g.model_sliders("srgb").unwrap();
    assert_eq!((s[0].value, s[1].value, s[2].value), (2_000_000, -5, 250_000));
    let c = g.current_color("srgb");
    assert_eq!((c.red, c.green, c.blue), (1_000_000, 0, 250_000));
}

#[test]
fn short_value_lists_keep_remaining_controls() {
    let mut g = GameContext::new();
    g.update_slider("srgb", &vec![100_000]);
    let s = g.model_sliders("srgb").unwrap();
    assert_eq!((s[0].value, s[1].value, s[2].value), (100_000, 500_000, 500_000));
    // Extra values are ignored.
    g.update_slider("srgb", &vec![1, 2, 3, 4, 5]);
    let s = g.model_sliders("srgb").unwrap();
    assert_eq!((s[0].value, s[1].value, s[2].value), (1, 2, 3));
}

#[test]
fn acceptability_of_current_color() {
    let mut g = GameContext::new();
    // Default gray is low saturation.
    let v = g.acceptable();
    assert_eq!(v.map(|r| r.boundary_label()), Some("low_saturation"));
    g.update_slider("srgb", &vec![600_000, 300_000, 300_000]);
    assert_eq!(g.acceptable(), None);
}

#[test]
fn perceptual_score_of_target_against_itself_is_zero() {
    // The boundary scores with the CIEDE2000 color difference on the LAB
    // coordinates the library computes; a color scored against itself is 0.
    let mut g = GameContext::new();
    let t = g.target_color();
    g.update_slider("srgb", &vec![t.red, t.green, t.blue]);
    let target = g.target_lab();
    let current = g.current_lab();
    let a: palette::Lab = palette::Lab::new(
        target.l as f32 / 1e6,
        target.a as f32 / 1e6,
        target.b as f32 / 1e6,
    );
    let b: palette::Lab = palette::Lab::new(
        current.l as f32 / 1e6,
        current.a as f32 / 1e6,
        current.b as f32 / 1e6,
    );
    assert_eq!(a.improved_difference(b), 0.0);
}

#[test]
fn score_is_zero_for_identical_lab_coordinates() {
    let mut g = GameContext::new();
    let t = g.target_color();
    g.update_slider("srgb", &vec![t.red, t.green, t.blue]);
    let current = g.current_lab();
    let target = g.target_lab();
    assert_eq!((current.l, current.a, current.b), (target.l, target.a, target.b));
}
