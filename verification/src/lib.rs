//! A fixed-point drum-synthesis engine: per-voice oscillators and envelopes,
//! noise generation, filtering, composite drum voices, a step sequencer and a
//! mixing/dynamics chain, all over Q16.16 integer samples.
//!
//! Every signal value is an `i64` in Q16.16: `SCALE` (65536) stands for 1.0.
//! Time is an absolute count of microseconds supplied by the caller; the
//! engine keeps no clock of its own.

pub mod chorus;
pub mod compressor;
pub mod effects;
pub mod envelope;
pub mod filters;
pub mod fixed;
pub mod fm_oscillator;
pub mod hihat;
pub mod instrument;
pub mod kick;
pub mod lfo;
pub mod noise;
pub mod oscillator;
pub mod snare;
pub mod stage;
pub mod tom;
pub mod waveform;

pub use fixed::SCALE;
