//! The real-time core of a small noise synthesizer: a bounded queue that hands
//! control snapshots to the audio side, a seeded noise source, a delay line,
//! a sample clock with its duty-cycle gate, and the engine that steps them
//! once per sample.
//!
//! Samples and control values travel through this crate as 32-bit words, the
//! bit patterns of single-precision numbers. Nothing here does arithmetic on
//! them; the all-zero word is silence.

pub mod delay;
pub mod noise;
pub mod params;
pub mod channel;
pub mod clock;
pub mod engine;

use vstd::prelude::*;

verus! {

/// Samples per second of the output stream.
pub const SAMPLE_RATE: u32 = 44100;

/// The number of snapshots that the queue between the two sides holds.
pub const CHANNEL_SLOTS: usize = 200;

} // verus!
