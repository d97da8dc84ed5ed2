//! Audio effects: the common per-sample effect interface and a soft
//! clipping harmonic distortion with pre- and post-filtering.

use vstd::prelude::*;

use crate::fixed::{clamp_i64, clamp_u64, mul_q, soft_clip_q, spec_clamp, spec_mul_q, SCALE};
use crate::filters::FILTER_BOUND;
use crate::oscillator::{FREQ_MAX, SR_MAX, SR_MIN};

verus! {

/// Lowest accepted effect-filter corner frequency, millihertz (20 Hz).
pub const EFFECT_FREQ_MIN: u64 = 20_000;

/// Per-sample audio effects share one interface: a well-formedness
/// predicate preserved by every call, bounded in-place processing, a state
/// reset, and an enable switch.
pub trait AudioEffect {
    /// The effect's internal invariant.
    spec fn effect_wf(&self) -> bool;

    /// Whether the effect is switched on.
    spec fn effect_enabled(&self) -> bool;

    /// Processes one sample; a disabled effect passes it through untouched.
    fn process(&mut self, input: i64) -> (r: i64)
        requires
            old(self).effect_wf(),
            -FILTER_BOUND <= input <= FILTER_BOUND,
        ensures
            final(self).effect_wf(),
            -FILTER_BOUND <= r <= FILTER_BOUND,
            !old(self).effect_enabled() ==> r == input,
    ;

    /// Clears the effect's internal signal state.
    fn reset(&mut self)
        requires
            old(self).effect_wf(),
        ensures
            final(self).effect_wf(),
            final(self).effect_enabled() == old(self).effect_enabled(),
    ;

    /// Enables or disables the effect.
    fn set_enabled(&mut self, enabled: bool)
        requires
            old(self).effect_wf(),
        ensures
            final(self).effect_wf(),
            final(self).effect_enabled() == enabled,
    ;

    /// Whether the effect is enabled.
    fn is_enabled(&self) -> (r: bool)
        ensures
            r == self.effect_enabled(),
    ;
}

/// Settings of the soft-clipping distortion: drive and output gain in
/// Q16.16 `[0, SCALE]`, filter corners in millihertz.
#[derive(Clone, Copy, Debug, PartialEq, Eq, Structural)]
pub struct DistortionConfig {
    pub drive: i64,
    pub output_gain: i64,
    pub pre_filter_freq: u64,
    pub post_filter_freq: u64,
}

impl DistortionConfig {
    /// Gains in `[0, SCALE]`, corners inside the audible band.
    pub open spec fn wf(self) -> bool {
        &&& 0 <= self.drive <= SCALE
        &&& 0 <= self.output_gain <= SCALE
        &&& EFFECT_FREQ_MIN <= self.pre_filter_freq <= FREQ_MAX
        &&& EFFECT_FREQ_MIN <= self.post_filter_freq <= FREQ_MAX
    }

    /// Builds a configuration, clamping every field.
    pub fn new(drive: i64, output_gain: i64, pre_filter_freq: u64, post_filter_freq: u64) -> (r:
        DistortionConfig)
        ensures
            r.wf(),
            r.drive == spec_clamp(drive as int, 0, SCALE as int),
            r.output_gain == spec_clamp(output_gain as int, 0, SCALE as int),
            r.pre_filter_freq == spec_clamp(
                pre_filter_freq as int,
                EFFECT_FREQ_MIN as int,
                FREQ_MAX as int,
            ),
            r.post_filter_freq == spec_clamp(
                post_filter_freq as int,
                EFFECT_FREQ_MIN as int,
                FREQ_MAX as int,
            ),
    {
        DistortionConfig {
            drive: clamp_i64(drive, 0, SCALE),
            output_gain: clamp_i64(output_gain, 0, SCALE),
            pre_filter_freq: clamp_u64(pre_filter_freq, EFFECT_FREQ_MIN, FREQ_MAX),
            post_filter_freq: clamp_u64(post_filter_freq, EFFECT_FREQ_MIN, FREQ_MAX),
        }
    }

    /// Moderate drive with gentle filtering.
    pub fn default() -> (r: DistortionConfig)
        ensures
            r.wf(),
    {
        DistortionConfig::new(32_768, 52_429, 80_000, 8_000_000)
    }

    /// Light drive, nearly transparent.
    pub fn subtle() -> (r: DistortionConfig)
        ensures
            r.wf(),
    {
        DistortionConfig::new(19_661, 58_982, 100_000, 10_000_000)
    }

    /// Heavy drive with tighter filtering.
    pub fn aggressive() -> (r: DistortionConfig)
        ensures
            r.wf(),
    {
        DistortionConfig::new(52_429, 45_875, 60_000, 6_000_000)
    }

    /// Mild drive with a darker post filter.
    pub fn warm() -> (r: DistortionConfig)
        ensures
            r.wf(),
    {
        DistortionConfig::new(26_214, 55_706, 120_000, 5_000_000)
    }
}

/// One-pole filter used around the clipper; `coefficient` is
/// `omega / (omega + 1)` for `omega = 2 pi f / sr`, Q16.16.
pub struct OnePointFilter {
    pub previous_input: i64,
    pub previous_output: i64,
    pub coefficient: i64,
}

impl OnePointFilter {
    /// Coefficient below one, registers saturated.
    pub open spec fn wf(self) -> bool {
        &&& 0 <= self.coefficient <= SCALE
        &&& -FILTER_BOUND <= self.previous_input <= FILTER_BOUND
        &&& -FILTER_BOUND <= self.previous_output <= FILTER_BOUND
    }

    fn new() -> (r: OnePointFilter)
        ensures
            r.wf(),
            r.previous_input == 0 && r.previous_output == 0 && r.coefficient == 0,
    {
        OnePointFilter { previous_input: 0, previous_output: 0, coefficient: 0 }
    }

    /// Derives the coefficient from a corner frequency and sample rate.
    fn set_frequency(&mut self, frequency_mhz: u64, sample_rate: u32)
        requires
            old(self).wf(),
            EFFECT_FREQ_MIN <= frequency_mhz <= FREQ_MAX,
            SR_MIN <= sample_rate <= SR_MAX,
        ensures
            final(self).wf(),
            final(self).previous_input == old(self).previous_input,
            final(self).previous_output == old(self).previous_output,
    {
        let omega: u64 = crate::fm_oscillator::TWO_PI_Q16 as u64 * frequency_mhz / (1000 * (
        sample_rate as u64));
        let den: u64 = omega + (SCALE as u64);
        let coeff: u64 = omega * (SCALE as u64) / den;
        proof {
            assert((omega as int) * (SCALE as int) < (den as int) * (SCALE as int))
                by (nonlinear_arith)
                requires
                    0 <= omega < den,
                    SCALE > 0,
            ;
            vstd::arithmetic::div_mod::lemma_multiply_divide_lt(
                (omega as int) * (SCALE as int),
                den as int,
                SCALE as int,
            );
            vstd::arithmetic::div_mod::lemma_div_pos_is_pos(
                (omega as int) * (SCALE as int),
                den as int,
            );
        }
        self.coefficient = coeff as i64;
    }

    /// High-pass step `y = c * (y1 + x - x1)`, saturated.
    fn process_high_pass(&mut self, input: i64) -> (r: i64)
        requires
            old(self).wf(),
            -FILTER_BOUND <= input <= FILTER_BOUND,
        ensures
            final(self).wf(),
            -FILTER_BOUND <= r <= FILTER_BOUND,
            final(self).coefficient == old(self).coefficient,
            final(self).previous_input == input,
            final(self).previous_output == r,
    {
        let sum: i64 = self.previous_output + input - self.previous_input;
        let raw: i64 = mul_q(self.coefficient, sum);
        proof {
            crate::fixed::lemma_mul_q_bound(
                self.coefficient as int,
                sum as int,
                SCALE as int,
                3 * (FILTER_BOUND as int),
            );
        }
        let out: i64 = clamp_i64(raw, -FILTER_BOUND, FILTER_BOUND);
        self.previous_input = input;
        self.previous_output = out;
        out
    }

    /// Low-pass step `y = y1 + c * (x - y1)`; the output stays between the
    /// input and the previous output, so it needs no saturation.
    fn process_low_pass(&mut self, input: i64) -> (r: i64)
        requires
            old(self).wf(),
            -FILTER_BOUND <= input <= FILTER_BOUND,
        ensures
            final(self).wf(),
            -FILTER_BOUND <= r <= FILTER_BOUND,
            final(self).coefficient == old(self).coefficient,
            final(self).previous_input == old(self).previous_input,
            final(self).previous_output == r,
    {
        let delta: i64 = mul_q(self.coefficient, input - self.previous_output);
        proof {
            crate::fixed::lemma_mul_q_contract(
                (input - self.previous_output) as int,
                self.coefficient as int,
            );
            crate::fixed::lemma_mul_q_bound(
                self.coefficient as int,
                (input - self.previous_output) as int,
                SCALE as int,
                2 * (FILTER_BOUND as int),
            );
        }
        let out: i64 = clamp_i64(self.previous_output + delta, -FILTER_BOUND, FILTER_BOUND);
        self.previous_output = out;
        out
    }

    fn reset(&mut self)
        ensures
            final(self).previous_input == 0,
            final(self).previous_output == 0,
            final(self).coefficient == old(self).coefficient,
    {
        self.previous_input = 0;
        self.previous_output = 0;
    }
}

/// Soft clipping harmonic distortion: a high-pass, a drive-scaled smooth
/// saturation with gain compensation, a low-pass, and an output gain.
pub struct SoftClippingDistortion {
    pub config: DistortionConfig,
    pub sample_rate: u32,
    pub enabled: bool,
    pub pre_filter: OnePointFilter,
    pub post_filter: OnePointFilter,
}

impl SoftClippingDistortion {
    /// Configuration, rate and both filters in range.
    pub open spec fn wf(self) -> bool {
        &&& self.config.wf()
        &&& SR_MIN <= self.sample_rate <= SR_MAX
        &&& self.pre_filter.wf()
        &&& self.post_filter.wf()
    }

    /// A disabled distortion with the stock settings.
    pub fn new(sample_rate: u32) -> (r: SoftClippingDistortion)
        ensures
            r.wf(),
            !r.enabled,
    {
        let config = DistortionConfig::default();
        SoftClippingDistortion::with_config(sample_rate, config)
    }

    /// A disabled distortion with the given settings (sample rate clamped).
    pub fn with_config(sample_rate: u32, config: DistortionConfig) -> (r: SoftClippingDistortion)
        requires
            config.wf(),
        ensures
            r.wf(),
            !r.enabled,
            r.config == config,
    {
        let sr: u32 = if sample_rate < SR_MIN {
            SR_MIN
        } else if sample_rate > SR_MAX {
            SR_MAX
        } else {
            sample_rate
        };
        let mut distortion = SoftClippingDistortion {
            config,
            sample_rate: sr,
            enabled: false,
            pre_filter: OnePointFilter::new(),
            post_filter: OnePointFilter::new(),
        };
        distortion.update_filters();
        distortion
    }

    /// Rederives both filter coefficients from the configuration.
    fn update_filters(&mut self)
        requires
            old(self).wf(),
        ensures
            final(self).wf(),
            final(self).config == old(self).config,
            final(self).enabled == old(self).enabled,
            final(self).sample_rate == old(self).sample_rate,
    {
        let pre: u64 = self.config.pre_filter_freq;
        let post: u64 = self.config.post_filter_freq;
        self.pre_filter.set_frequency(pre, self.sample_rate);
        self.post_filter.set_frequency(post, self.sample_rate);
    }

    /// Replaces the settings and rederives the filters.
    pub fn set_config(&mut self, config: DistortionConfig)
        requires
            old(self).wf(),
            config.wf(),
        ensures
            final(self).wf(),
            final(self).config == config,
            final(self).enabled == old(self).enabled,
    {
        self.config = config;
        self.update_filters();
    }

    /// Sets the drive amount, clamped into `[0, SCALE]`.
    pub fn set_drive(&mut self, drive: i64)
        requires
            old(self).wf(),
        ensures
            final(self).wf(),
            final(self).config.drive == spec_clamp(drive as int, 0, SCALE as int),
            final(self).enabled == old(self).enabled,
    {
        self.config.drive = clamp_i64(drive, 0, SCALE);
    }

    /// Sets the output gain, clamped into `[0, SCALE]`.
    pub fn set_output_gain(&mut self, gain: i64)
        requires
            old(self).wf(),
        ensures
            final(self).wf(),
            final(self).config.output_gain == spec_clamp(gain as int, 0, SCALE as int),
            final(self).enabled == old(self).enabled,
    {
        self.config.output_gain = clamp_i64(gain, 0, SCALE);
    }

    /// The drive-scaled smooth saturation with gain compensation: at zero
    /// drive the input passes through.
    fn soft_clip(&self, input: i64, drive: i64) -> (r: i64)
        requires
            -FILTER_BOUND <= input <= FILTER_BOUND,
            0 <= drive <= SCALE,
        ensures
            -FILTER_BOUND <= r <= FILTER_BOUND,
            drive == 0 ==> r == input,
    {
        if drive <= 0 {
            return input;
        }
        let gain: i64 = SCALE + 9 * drive;
        let scaled: i64 = mul_q(input, gain);
        proof {
            crate::fixed::lemma_mul_q_bound(
                input as int,
                gain as int,
                FILTER_BOUND as int,
                655_360,
            );
        }
        let clipped: i64 = soft_clip_q(scaled);
        let compensation: i64 = ((SCALE as u64) * (SCALE as u64) / ((SCALE + drive / 2) as u64))
            as i64;
        proof {
            assert((SCALE as int) * (SCALE as int) <= ((SCALE + drive / 2) as int) * (
            SCALE as int)) by (nonlinear_arith)
                requires
                    drive >= 0,
                    SCALE > 0,
            ;
            vstd::arithmetic::div_mod::lemma_multiply_divide_le(
                (SCALE as int) * (SCALE as int),
                (SCALE + drive / 2) as int,
                SCALE as int,
            );
            vstd::arithmetic::div_mod::lemma_div_pos_is_pos(
                (SCALE as int) * (SCALE as int),
                (SCALE + drive / 2) as int,
            );
        }
        let out: i64 = mul_q(clipped, compensation);
        proof {
            crate::fixed::lemma_mul_q_gain(clipped as int, compensation as int, SCALE as int);
        }
        out
    }
}

impl AudioEffect for SoftClippingDistortion {
    open spec fn effect_wf(&self) -> bool {
        self.wf()
    }

    open spec fn effect_enabled(&self) -> bool {
        self.enabled
    }

    fn process(&mut self, input: i64) -> (r: i64) {
        if !self.enabled {
            return input;
        }
        let filtered_input: i64 = self.pre_filter.process_high_pass(input);
        let drive: i64 = self.config.drive;
        let distorted: i64 = self.soft_clip(filtered_input, drive);
        let filtered_output: i64 = self.post_filter.process_low_pass(distorted);
        let out: i64 = mul_q(filtered_output, self.config.output_gain);
        proof {
            crate::fixed::lemma_mul_q_gain(
                filtered_output as int,
                self.config.output_gain as int,
                FILTER_BOUND as int,
            );
        }
        out
    }

    fn reset(&mut self) {
        self.pre_filter.reset();
        self.post_filter.reset();
    }

    fn set_enabled(&mut self, enabled: bool) {
        self.enabled = enabled;
    }

    fn is_enabled(&self) -> bool {
        self.enabled
    }
}

} // verus!
