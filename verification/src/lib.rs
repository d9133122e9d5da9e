//! Control core of a stereo distortion effect.
//!
//! The audio path itself works on 32-bit float samples and lives outside this
//! library; what is verified here is everything the effect decides with plain
//! values: the choice and persisted encoding of the distortion and oversampler
//! variants, the stepping of categorical parameters, the splitting of a host
//! buffer into fixed-size processing blocks together with the per-block routing
//! plan, the editor window state, and the editor's style constants.

use vstd::prelude::*;

pub mod distortions;
pub mod driver;
pub mod filters;
pub mod oversamplers;
pub mod params;
pub mod state;
pub mod style;

verus! {

/// The time in milliseconds it takes for the peak meter to decay by 12 dB
/// after the input switches to complete silence.
pub const PEAK_METER_DECAY_MS: u64 = 150;

/// How long in milliseconds the UI's bar meter holds a peak before it starts
/// to fall.
pub const PEAK_METER_HOLD_MS: u64 = 600;

} // verus!
