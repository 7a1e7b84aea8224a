//! Noise-field composition and contour extraction for a character-grid
//! terrain preview.
//!
//! Real numbers enter this crate as single-precision bit patterns
//! ([`scalar::Scalar`]); every decision the renderer takes on them
//! (thresholding, banding, the zoom floor) is an integer comparison.

pub mod biome;
pub mod frame;
pub mod input;
pub mod marcher;
pub mod noisefield;
pub mod scalar;
