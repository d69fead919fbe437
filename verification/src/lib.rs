//! A verified color-model engine for a color-matching game.
//!
//! Colors and controls are held in fixed-point micro-units (one unit is
//! 1_000_000), so every conversion between color models -- sRGB, HSV, HSL,
//! CIE XYZ, CIE LAB and CIE LCH -- is exact integer arithmetic with stated
//! rounding, and the cross-model synchronization, the target-exclusion
//! policy and the challenge generation are proved against mathematical
//! specifications.

pub mod challenge;
pub mod chooser;
pub mod color;
pub mod fixed;
pub mod hsv;
pub mod labspace;
pub mod laws;
pub mod session;
pub mod slider;
pub mod transfer;
pub mod trig;
