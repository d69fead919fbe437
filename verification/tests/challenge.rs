//! The target-exclusion policy and challenge generation.

use color_recall::challenge::{ColorChallenge, ExcludeReason};
use color_recall::color::Rgb;

fn rgb(r: i64, g: i64, b: i64) -> Rgb {
    Rgb { red: r, green: g, blue: b }
}

#[test]
fn near_black_is_too_dark() {
    assert_eq!(
        ColorChallenge::is_excluded(&rgb(10_000, 10_000, 10_000)),
        Some(ExcludeReason::TooDark)
    );
}

#[test]
fn near_white_is_too_bright() {
    assert_eq!(
        ColorChallenge::is_excluded(&rgb(990_000, 990_000, 990_000)),
        Some(ExcludeReason::TooBright)
    );
}

#[test]
fn mid_gray_has_low_saturation() {
    assert_eq!(
        ColorChallenge::is_excluded(&rgb(500_000, 500_000, 500_000)),
        Some(ExcludeReason::LowSaturation)
    );
}

#[test]
fn pure_red_has_high_saturation() {
    assert_eq!(
        ColorChallenge::is_excluded(&rgb(1_000_000, 0, 0)),
        Some(ExcludeReason::HighSaturation)
    );
}

#[test]
fn mid_saturation_color_is_accepted() {
    assert_eq!(ColorChallenge::is_excluded(&rgb(600_000, 300_000, 300_000)), None);
}

#[test]
fn exclusion_boundaries_are_sharp() {
    // Sum 0.239999 is dark, 0.24 is not; saturation 0.15 is not low,
    // just under it is.
    assert_eq!(
        ColorChallenge::is_excluded(&rgb(79_999, 80_000, 80_000)),
        Some(ExcludeReason::TooDark)
    );
    // Saturation exactly 0.15 with max 0.8: delta = 0.12.
    assert_eq!(ColorChallenge::is_excluded(&rgb(800_000, 680_000, 680_000)), None);
    assert_eq!(
        ColorChallenge::is_excluded(&rgb(800_000, 680_001, 680_001)),
        Some(ExcludeReason::LowSaturation)
    );
    // Saturation exactly 0.9 with max 0.8 is accepted; above it is not.
    assert_eq!(ColorChallenge::is_excluded(&rgb(800_000, 80_000, 80_000)), None);
    assert_eq!(
        ColorChallenge::is_excluded(&rgb(800_000, 79_999, 79_999)),
        Some(ExcludeReason::HighSaturation)
    );
}

#[test]
fn generated_targets_are_never_excluded() {
    let mut seen = std::collections::HashSet::new();
    for _ in 0..200 {
        let challenge = ColorChallenge::new();
        let target = challenge.target_color();
        assert_eq!(ColorChallenge::is_excluded(target), None);
        assert!(target.red >= 0 && target.red <= 1_000_000);
        assert!(target.green >= 0 && target.green <= 1_000_000);
        assert!(target.blue >= 0 && target.blue <= 1_000_000);
        seen.insert((target.red, target.green, target.blue));
    }
    // The provider actually randomizes: the draws cannot all coincide.
    assert!(seen.len() > 1, "all 200 targets were identical");
}

#[test]
fn verdict_descriptions() {
    assert_eq!(ExcludeReason::TooDark.description(), "Too dark");
    assert_eq!(ExcludeReason::TooBright.description(), "Too bright");
    assert_eq!(ExcludeReason::LowSaturation.description(), "Low saturation");
    assert_eq!(ExcludeReason::HighSaturation.description(), "High saturation");
}

#[test]
fn verdict_boundary_labels() {
    assert_eq!(ExcludeReason::TooDark.boundary_label(), "too_dark");
    assert_eq!(ExcludeReason::TooBright.boundary_label(), "too_bright");
    assert_eq!(ExcludeReason::LowSaturation.boundary_label(), "low_saturation");
    assert_eq!(ExcludeReason::HighSaturation.boundary_label(), "high_saturation");
}
