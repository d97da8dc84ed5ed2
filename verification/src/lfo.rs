//! Low-frequency oscillator for parameter modulation: sine, square, saw or
//! triangle, tracked against the caller's absolute clock.

use vstd::prelude::*;

use crate::fixed::{clamp_i64, clamp_u64, mul_q, sine_q, spec_clamp, spec_mul_q, spec_sine_q, SCALE};
use crate::oscillator::{SR_MAX, SR_MIN};

verus! {

/// Lowest accepted LFO rate, millihertz (0.01 Hz).
pub const LFO_FREQ_MIN: u64 = 10;

/// Highest accepted LFO rate, millihertz (20 Hz).
pub const LFO_FREQ_MAX: u64 = 20_000;

/// Phase units per LFO cycle (a 32-bit turn counter).
pub const LFO_PHASE_ONE: u64 = 4_294_967_296;

/// Longest time step the phase tracker absorbs at once, microseconds.
pub const LFO_MAX_STEP_US: u64 = 1_000_000_000;

/// The modulation waveform shapes.
#[derive(Clone, Copy, Debug, PartialEq, Eq, Structural)]
pub enum LFOWaveform {
    Sine,
    Square,
    Saw,
    Triangle,
}

/// Rate, depth, shape and enable switch of one LFO.
#[derive(Clone, Copy, Debug, PartialEq, Eq, Structural)]
pub struct LFOConfig {
    pub frequency_mhz: u64,
    pub depth: i64,
    pub waveform: LFOWaveform,
    pub enabled: bool,
}

impl LFOConfig {
    /// Rate and depth in their accepted intervals.
    pub open spec fn wf(self) -> bool {
        &&& LFO_FREQ_MIN <= self.frequency_mhz <= LFO_FREQ_MAX
        &&& 0 <= self.depth <= SCALE
    }
}

impl Default for LFOConfig {
    /// 2 Hz, half depth, sine, disabled.
    fn default() -> (r: LFOConfig)
        ensures
            r.wf(),
            r == (LFOConfig {
                frequency_mhz: 2_000u64,
                depth: 32_768i64,
                waveform: LFOWaveform::Sine,
                enabled: false,
            }),
    {
        LFOConfig {
            frequency_mhz: 2_000,
            depth: 32_768,
            waveform: LFOWaveform::Sine,
            enabled: false,
        }
    }
}

/// Phase advance for a time step: `freq * dt` cycles in 32-bit turn units,
/// the step capped so the product stays representable.
pub open spec fn spec_lfo_phase_inc(freq_mhz: int, delta_us: int) -> int {
    let capped = if delta_us > LFO_MAX_STEP_US {
        LFO_MAX_STEP_US as int
    } else {
        delta_us
    };
    freq_mhz * capped * (LFO_PHASE_ONE as int) / 1_000_000_000int
}

/// The raw waveform value at a 32-bit phase, Q16.16 in `[-SCALE, SCALE]`.
pub open spec fn spec_lfo_raw(w: LFOWaveform, phase: int) -> int {
    match w {
        LFOWaveform::Sine => spec_sine_q(phase / 65536),
        LFOWaveform::Square => if phase < (LFO_PHASE_ONE as int) / 2 {
            SCALE as int
        } else {
            -SCALE as int
        },
        LFOWaveform::Saw => phase / 65536 * 2 - (SCALE as int),
        LFOWaveform::Triangle => if phase < (LFO_PHASE_ONE as int) / 2 {
            phase / 65536 * 4 - (SCALE as int)
        } else {
            196_608 - phase / 65536 * 4
        },
    }
}

/// A low-frequency oscillator: settings, a 32-bit phase, and the time of
/// the last advance (microseconds).
pub struct LFO {
    pub config: LFOConfig,
    pub sample_rate: u32,
    pub phase: u64,
    pub last_time: u64,
}

impl LFO {
    /// Settings in range and the phase inside one turn.
    pub open spec fn wf(self) -> bool {
        &&& self.config.wf()
        &&& SR_MIN <= self.sample_rate <= SR_MAX
        &&& self.phase < LFO_PHASE_ONE
    }

    /// A fresh LFO (sample rate clamped) with the default settings.
    pub fn new(sample_rate: u32) -> (r: LFO)
        ensures
            r.wf(),
            r.phase == 0,
            r.last_time == 0,
            r.config == (LFOConfig {
                frequency_mhz: 2_000u64,
                depth: 32_768i64,
                waveform: LFOWaveform::Sine,
                enabled: false,
            }),
    {
        LFO::with_config(sample_rate, LFOConfig::default())
    }

    /// A fresh LFO with the given settings.
    pub fn with_config(sample_rate: u32, config: LFOConfig) -> (r: LFO)
        requires
            config.wf(),
        ensures
            r.wf(),
            r.phase == 0,
            r.last_time == 0,
            r.config == config,
    {
        let sr: u32 = if sample_rate < SR_MIN {
            SR_MIN
        } else if sample_rate > SR_MAX {
            SR_MAX
        } else {
            sample_rate
        };
        LFO { config, sample_rate: sr, phase: 0, last_time: 0 }
    }

    /// One modulation value at absolute time `current_time`: the phase
    /// advances by the elapsed time times the rate, and the waveform value
    /// is scaled by the depth. Disabled: exactly zero, nothing moves.
    pub fn tick(&mut self, current_time: u64) -> (r: i64)
        requires
            old(self).wf(),
        ensures
            final(self).wf(),
            -SCALE <= r <= SCALE,
            !old(self).config.enabled ==> r == 0 && *final(self) == *old(self),
            final(self).config == old(self).config,
            final(self).sample_rate == old(self).sample_rate,
            old(self).config.enabled ==> final(self).last_time == current_time,
            old(self).config.enabled ==> final(self).phase == (old(self).phase
                + spec_lfo_phase_inc(
                old(self).config.frequency_mhz as int,
                old(self).spec_elapsed(current_time as int),
            )) % (LFO_PHASE_ONE as int),
            old(self).config.enabled ==> r == spec_mul_q(
                spec_lfo_raw(
                    old(self).config.waveform,
                    (old(self).phase + spec_lfo_phase_inc(
                        old(self).config.frequency_mhz as int,
                        old(self).spec_elapsed(current_time as int),
                    )) % (LFO_PHASE_ONE as int),
                ),
                old(self).config.depth as int,
            ),
    {
        if !self.config.enabled {
            return 0;
        }
        let delta: u64 = if current_time >= self.last_time {
            current_time - self.last_time
        } else {
            0
        };
        let capped: u64 = if delta > LFO_MAX_STEP_US {
            LFO_MAX_STEP_US
        } else {
            delta
        };
        proof {
            assert((self.config.frequency_mhz as int) * (capped as int) <= 20_000int
                * 1_000_000_000int) by (nonlinear_arith)
                requires
                    0 <= self.config.frequency_mhz <= 20_000,
                    0 <= capped <= 1_000_000_000,
            ;
            assert(0 <= (self.config.frequency_mhz as int) * (capped as int) * (
            LFO_PHASE_ONE as int) <= 20_000int * 1_000_000_000int * (LFO_PHASE_ONE as int))
                by (nonlinear_arith)
                requires
                    0 <= (self.config.frequency_mhz as int) * (capped as int) <= 20_000int
                        * 1_000_000_000int,
                    LFO_PHASE_ONE > 0,
            ;
        }
        let wide: u128 = (self.config.frequency_mhz as u128) * (capped as u128) * (
        LFO_PHASE_ONE as u128);
        let inc_wide: u128 = wide / 1_000_000_000u128;
        proof {
            vstd::arithmetic::div_mod::lemma_div_is_ordered(
                wide as int,
                20_000int * 1_000_000_000int * (LFO_PHASE_ONE as int),
                1_000_000_000int,
            );
            vstd::arithmetic::div_mod::lemma_div_pos_is_pos(wide as int, 1_000_000_000int);
            assert(20_000int * 1_000_000_000int * (LFO_PHASE_ONE as int) == 85_899_345_920_000int
                * 1_000_000_000int) by (nonlinear_arith)
                requires
                    LFO_PHASE_ONE == 4_294_967_296,
            ;
            vstd::arithmetic::div_mod::lemma_div_by_multiple(
                85_899_345_920_000int,
                1_000_000_000int,
            );
        }
        let inc: u64 = inc_wide as u64;
        self.phase = (self.phase + inc) % LFO_PHASE_ONE;
        self.last_time = current_time;
        let phase_now: u64 = self.phase;
        proof {
            assert(phase_now >> 16 < 65536 && (phase_now >> 16) as int == phase_now as int
                / 65536) by (bit_vector)
                requires
                    phase_now < 4_294_967_296,
            ;
        }
        let frac: u32 = (phase_now >> 16) as u32;
        let raw_value: i64 = match self.config.waveform {
            LFOWaveform::Sine => sine_q(frac),
            LFOWaveform::Square => if phase_now < LFO_PHASE_ONE / 2 {
                SCALE
            } else {
                -SCALE
            },
            LFOWaveform::Saw => (frac as i64) * 2 - SCALE,
            LFOWaveform::Triangle => if phase_now < LFO_PHASE_ONE / 2 {
                (frac as i64) * 4 - SCALE
            } else {
                196_608 - (frac as i64) * 4
            },
        };
        proof {
            if self.config.waveform is Triangle {
                assert(phase_now < 2_147_483_648 ==> phase_now >> 16 < 32_768) by (bit_vector);
                assert(phase_now >= 2_147_483_648 && phase_now < 4_294_967_296 ==> phase_now >> 16
                    >= 32_768) by (bit_vector);
            }
        }
        let out: i64 = mul_q(raw_value, self.config.depth);
        proof {
            crate::fixed::lemma_mul_q_gain(raw_value as int, self.config.depth as int, SCALE as int);
        }
        out
    }

    /// Elapsed time since the last advance, never negative.
    pub open spec fn spec_elapsed(self, t: int) -> int {
        if t >= self.last_time {
            t - self.last_time
        } else {
            0
        }
    }

    /// Sets the rate (millihertz), clamped.
    pub fn set_frequency(&mut self, frequency_mhz: u64)
        ensures
            final(self).config.frequency_mhz == spec_clamp(
                frequency_mhz as int,
                LFO_FREQ_MIN as int,
                LFO_FREQ_MAX as int,
            ),
            *final(self) == (LFO { config: final(self).config, ..*old(self) }),
            final(self).config == (LFOConfig {
                frequency_mhz: final(self).config.frequency_mhz,
                ..old(self).config
            }),
    {
        self.config.frequency_mhz = clamp_u64(frequency_mhz, LFO_FREQ_MIN, LFO_FREQ_MAX);
    }

    /// Sets the depth, clamped into `[0, SCALE]`.
    pub fn set_depth(&mut self, depth: i64)
        ensures
            final(self).config.depth == spec_clamp(depth as int, 0, SCALE as int),
            *final(self) == (LFO { config: final(self).config, ..*old(self) }),
            final(self).config == (LFOConfig { depth: final(self).config.depth, ..old(self).config }),
    {
        self.config.depth = clamp_i64(depth, 0, SCALE);
    }

    /// Sets the waveform.
    pub fn set_waveform(&mut self, waveform: LFOWaveform)
        ensures
            final(self).config.waveform == waveform,
            *final(self) == (LFO { config: final(self).config, ..*old(self) }),
            final(self).config == (LFOConfig { waveform, ..old(self).config }),
    {
        self.config.waveform = waveform;
    }

    /// Enables or disables the LFO; enabling rewinds the phase.
    pub fn set_enabled(&mut self, enabled: bool)
        ensures
            final(self).config.enabled == enabled,
            enabled ==> final(self).phase == 0,
            final(self).config == (LFOConfig { enabled, ..old(self).config }),
            final(self).sample_rate == old(self).sample_rate,
            final(self).last_time == old(self).last_time,
            !enabled ==> final(self).phase == old(self).phase,
    {
        self.config.enabled = enabled;
        if enabled {
            self.phase = 0;
        }
    }

    /// Rewinds the phase to the start of a cycle.
    pub fn reset_phase(&mut self)
        ensures
            final(self).phase == 0,
            *final(self) == (LFO { phase: 0u64, ..*old(self) }),
    {
        self.phase = 0;
    }

    /// The rate, millihertz.
    pub fn get_frequency(&self) -> (r: u64)
        ensures
            r == self.config.frequency_mhz,
    {
        self.config.frequency_mhz
    }

    /// The depth.
    pub fn get_depth(&self) -> (r: i64)
        ensures
            r == self.config.depth,
    {
        self.config.depth
    }

    /// The waveform.
    pub fn get_waveform(&self) -> (r: LFOWaveform)
        ensures
            r == self.config.waveform,
    {
        self.config.waveform
    }

    /// Whether the LFO is enabled.
    pub fn is_enabled(&self) -> (r: bool)
        ensures
            r == self.config.enabled,
    {
        self.config.enabled
    }
}

} // verus!
