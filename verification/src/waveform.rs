//! The waveform shapes an oscillator can produce.

use vstd::prelude::*;

verus! {

/// Shape selector for `Oscillator`: one pure tone, three band-limited
/// harmonic stacks, ring modulation, and four noise colors.
#[derive(Debug, Clone, Copy, PartialEq, Eq, Structural)]
pub enum Waveform {
    Sine,
    Square,
    Saw,
    Triangle,
    RingMod,
    WhiteNoise,
    PinkNoise,
    BrownNoise,
    SnareNoise,
}

} // verus!
