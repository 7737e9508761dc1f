//! Monophonic voice core of a small synthesizer: note tracking, an ADSR
//! envelope, a fixed-point oscillator bank and the per-sample mixer.
//!
//! All signal arithmetic is done in fixed point. Amplitudes, envelope levels
//! and normalised control positions are integers scaled by [`UNITY`], so that
//! `UNITY` stands for `1.0`. Time is counted in samples.

mod arith;
pub mod envelope;
pub mod midi;
pub mod mixer;
pub mod notes;
pub mod oscillator;
pub mod params;
pub mod voice;

use vstd::prelude::*;

verus! {

/// The fixed-point value that stands for `1.0`.
pub const UNITY: u32 = 1000000;

} // verus!
