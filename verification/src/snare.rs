//! Snare voice: a triangle tonal component blended with snare-colored
//! noise, shaped by one percussive ADSR envelope.

use vstd::prelude::*;

use crate::envelope::{ADSRConfig, Envelope};
use crate::fixed::{clamp_i64, clamp_u64, mul_q, spec_clamp, spec_mul_q, SCALE};
use crate::noise::{NoiseGenerator, NoiseType, PINK_OUT_BOUND};
use crate::oscillator::{phase_frac, spec_phase_frac, FREQ_MAX, SR_MAX, SR_MIN};

verus! {

/// Lowest accepted snare fundamental, millihertz (50 Hz).
pub const SNARE_FREQ_MIN: u64 = 50_000;

/// A triangle of one cycle over the phase fraction: up from 0 to one unit
/// across the first quarter, down through zero to minus one unit at three
/// quarters, back to zero.
pub open spec fn spec_triangle_q(frac: int) -> int {
    if frac < 16_384 {
        4 * frac
    } else if frac < 49_152 {
        131_072 - 4 * frac
    } else {
        4 * frac - 262_144
    }
}

/// Exec twin of `spec_triangle_q`.
fn triangle_q(frac: u32) -> (r: i64)
    requires
        frac < 65_536,
    ensures
        r == spec_triangle_q(frac as int),
        -SCALE <= r <= SCALE,
{
    if frac < 16_384 {
        4 * (frac as i64)
    } else if frac < 49_152 {
        131_072 - 4 * (frac as i64)
    } else {
        4 * (frac as i64) - 262_144
    }
}

/// A snare voice: tonal triangle plus seeded snare-colored noise, mixed at
/// a configurable ratio and shaped by one envelope.
pub struct SnareInstrument {
    pub sample_rate: u32,
    pub current_sample_index: u32,
    pub frequency_mhz: u64,
    pub envelope: Envelope,
    pub volume: i64,
    pub enabled: bool,
    pub noise_generator: NoiseGenerator,
    pub noise_mix_level: i64,
    pub tonal_noise_mix: i64,
}

impl SnareInstrument {
    /// Rates, phase, frequency, ratios and every component in range.
    pub open spec fn wf(self) -> bool {
        &&& SR_MIN <= self.sample_rate <= SR_MAX
        &&& self.current_sample_index < self.sample_rate
        &&& SNARE_FREQ_MIN <= self.frequency_mhz <= FREQ_MAX
        &&& self.envelope.wf()
        &&& 0 <= self.volume <= SCALE
        &&& self.noise_generator.wf() && self.noise_generator.spec_noise_type()
            == NoiseType::Snare
        &&& 0 <= self.noise_mix_level <= SCALE
        &&& 0 <= self.tonal_noise_mix <= SCALE
    }

    /// A fresh snare (sample rate clamped): 200 Hz fundamental, the
    /// percussive default envelope, fixed noise seed, 70% noise intensity,
    /// 30% tonal / 70% noise blend.
    pub fn new(sample_rate: u32) -> (r: SnareInstrument)
        ensures
            r.wf(),
            r.frequency_mhz == 200_000,
            !r.envelope.is_active,
            r.enabled,
            r.volume == SCALE,
            r.envelope.config() == (ADSRConfig {
                attack_time: 1_000u64,
                decay_time: 50_000u64,
                sustain_level: 6_554i64,
                release_time: 200_000u64,
            }),
    {
        let sr: u32 = if sample_rate < SR_MIN {
            SR_MIN
        } else if sample_rate > SR_MAX {
            SR_MAX
        } else {
            sample_rate
        };
        SnareInstrument {
            sample_rate: sr,
            current_sample_index: 0,
            frequency_mhz: 200_000,
            envelope: Envelope::with_config(Self::drum_adsr_default()),
            volume: SCALE,
            enabled: true,
            noise_generator: NoiseGenerator::new(NoiseType::Snare, 12345),
            noise_mix_level: 45_875,
            tonal_noise_mix: 19_661,
        }
    }

    /// The percussive default shape: 1 ms attack, 50 ms decay, 10%
    /// sustain, 200 ms release.
    pub fn drum_adsr_default() -> (r: ADSRConfig)
        ensures
            r.wf(),
            r == (ADSRConfig {
                attack_time: 1_000u64,
                decay_time: 50_000u64,
                sustain_level: 6_554i64,
                release_time: 200_000u64,
            }),
    {
        ADSRConfig::new(1_000, 50_000, 6_554, 200_000)
    }

    /// Starts the envelope at `time`.
    pub fn trigger(&mut self, time: u64)
        requires
            old(self).wf(),
        ensures
            final(self).wf(),
            final(self).envelope.is_active,
            final(self).envelope.trigger_time == time,
            final(self).envelope.config() == old(self).envelope.config(),
            *final(self) == (SnareInstrument { envelope: final(self).envelope, ..*old(self) }),
    {
        self.envelope.trigger(time);
    }

    /// Forwarded to the envelope, whose release tail is baked into its
    /// shape: nothing moves.
    pub fn release(&mut self, time: u64)
        ensures
            *final(self) == *old(self),
    {
        self.envelope.release(time);
    }

    /// Sets the volume, clamped into `[0, SCALE]`.
    pub fn set_volume(&mut self, volume: i64)
        ensures
            final(self).volume == spec_clamp(volume as int, 0, SCALE as int),
            *final(self) == (SnareInstrument { volume: final(self).volume, ..*old(self) }),
    {
        self.volume = clamp_i64(volume, 0, SCALE);
    }

    /// Replaces the envelope settings.
    pub fn set_adsr(&mut self, config: ADSRConfig)
        requires
            config.wf(),
        ensures
            final(self).envelope.config() == config,
            final(self).envelope.is_active == old(self).envelope.is_active,
            final(self).envelope.trigger_time == old(self).envelope.trigger_time,
            *final(self) == (SnareInstrument { envelope: final(self).envelope, ..*old(self) }),
    {
        self.envelope.set_config(config);
    }

    /// Sets the tonal fundamental (millihertz), clamped.
    pub fn set_frequency(&mut self, frequency_mhz: u64)
        ensures
            final(self).frequency_mhz == spec_clamp(
                frequency_mhz as int,
                SNARE_FREQ_MIN as int,
                FREQ_MAX as int,
            ),
            *final(self) == (SnareInstrument {
                frequency_mhz: final(self).frequency_mhz,
                ..*old(self)
            }),
    {
        self.frequency_mhz = clamp_u64(frequency_mhz, SNARE_FREQ_MIN, FREQ_MAX);
    }

    /// The tonal fundamental, millihertz.
    pub fn get_frequency(&self) -> (r: u64)
        ensures
            r == self.frequency_mhz,
    {
        self.frequency_mhz
    }

    /// Enables or disables the voice.
    pub fn set_enabled(&mut self, enabled: bool)
        ensures
            *final(self) == (SnareInstrument { enabled, ..*old(self) }),
    {
        self.enabled = enabled;
    }

    /// Whether the voice is enabled.
    pub fn is_enabled(&self) -> (r: bool)
        ensures
            r == self.enabled,
    {
        self.enabled
    }

    /// Sets the noise intensity, clamped into `[0, SCALE]`.
    pub fn set_noise_mix_level(&mut self, level: i64)
        ensures
            final(self).noise_mix_level == spec_clamp(level as int, 0, SCALE as int),
            *final(self) == (SnareInstrument {
                noise_mix_level: final(self).noise_mix_level,
                ..*old(self)
            }),
    {
        self.noise_mix_level = clamp_i64(level, 0, SCALE);
    }

    /// The noise intensity.
    pub fn get_noise_mix_level(&self) -> (r: i64)
        ensures
            r == self.noise_mix_level,
    {
        self.noise_mix_level
    }

    /// Sets the tonal/noise blend (0 pure tonal, `SCALE` pure noise),
    /// clamped.
    pub fn set_tonal_noise_mix(&mut self, mix: i64)
        ensures
            final(self).tonal_noise_mix == spec_clamp(mix as int, 0, SCALE as int),
            *final(self) == (SnareInstrument {
                tonal_noise_mix: final(self).tonal_noise_mix,
                ..*old(self)
            }),
    {
        self.tonal_noise_mix = clamp_i64(mix, 0, SCALE);
    }

    /// The tonal/noise blend.
    pub fn get_tonal_noise_mix(&self) -> (r: i64)
        ensures
            r == self.tonal_noise_mix,
    {
        self.tonal_noise_mix
    }

    /// The tonal triangle sample at phase `phase`.
    pub open spec fn spec_tonal(self, phase: int) -> int {
        spec_triangle_q(
            spec_phase_frac(phase, self.frequency_mhz as int, self.sample_rate as int),
        )
    }

    /// The sample one enabled tick returns given the noise draw `nz`: the
    /// advanced-phase triangle and the scaled noise blended at the
    /// tonal/noise ratio, shaped by the envelope and the volume.
    pub open spec fn spec_tick_sample_with(self, t: int, nz: int) -> int {
        let tonal = self.spec_tonal((self.current_sample_index + 1) % (self.sample_rate as int));
        let dry = spec_mul_q(tonal, (SCALE - self.tonal_noise_mix) as int);
        let wet = spec_mul_q(
            spec_mul_q(nz, self.noise_mix_level as int),
            self.tonal_noise_mix as int,
        );
        spec_mul_q(spec_mul_q(dry + wet, self.envelope.spec_amplitude(t)), self.volume as int)
    }

    /// What one enabled tick returns: the blend above, for some
    /// snare-colored noise draw inside one unit.
    pub open spec fn spec_tick_output_ok(self, t: int, r: i64) -> bool {
        exists|nz: int| -SCALE <= nz <= SCALE && r == #[trigger] self.spec_tick_sample_with(t, nz)
    }

    /// One output sample at absolute time `current_time`: the triangle and
    /// a noise draw blended at the tonal/noise ratio, shaped by the
    /// envelope and the volume. Disabled: exactly zero, nothing moves; the
    /// magnitude never passes the volume.
    pub fn tick(&mut self, current_time: u64) -> (r: i64)
        requires
            old(self).wf(),
        ensures
            final(self).wf(),
            -old(self).volume <= r <= old(self).volume,
            -SCALE <= r <= SCALE,
            !old(self).enabled ==> r == 0 && *final(self) == *old(self),
            old(self).enabled ==> old(self).spec_tick_output_ok(current_time as int, r),
            old(self).enabled ==> final(self).current_sample_index == (
            old(self).current_sample_index + 1) % (old(self).sample_rate as int),
            old(self).enabled ==> final(self).envelope.config() == old(self).envelope.config()
                && final(self).envelope.trigger_time == old(self).envelope.trigger_time
                && final(self).envelope.is_active == old(self).envelope.spec_running(
                current_time as int,
            ),
            final(self).frequency_mhz == old(self).frequency_mhz,
            final(self).volume == old(self).volume,
            final(self).enabled == old(self).enabled,
            final(self).sample_rate == old(self).sample_rate,
            final(self).noise_mix_level == old(self).noise_mix_level,
            final(self).tonal_noise_mix == old(self).tonal_noise_mix,
            old(self).enabled && old(self).tonal_noise_mix == 0 ==> r == spec_mul_q(
                spec_mul_q(
                    old(self).spec_tonal(
                        (old(self).current_sample_index + 1) % (old(self).sample_rate as int),
                    ),
                    old(self).envelope.spec_amplitude(current_time as int),
                ),
                old(self).volume as int,
            ),
    {
        if !self.enabled {
            return 0;
        }
        let phase: u32 = (self.current_sample_index + 1) % self.sample_rate;
        self.current_sample_index = phase;
        let tonal: i64 = triangle_q(phase_frac(phase, self.frequency_mhz, self.sample_rate));
        let noise_raw: i64 = self.noise_generator.generate();
        let noise: i64 = mul_q(noise_raw, self.noise_mix_level);
        proof {
            crate::fixed::lemma_mul_q_gain(noise_raw as int, self.noise_mix_level as int, SCALE as int);
        }
        let dry: i64 = mul_q(tonal, SCALE - self.tonal_noise_mix);
        let wet: i64 = mul_q(noise, self.tonal_noise_mix);
        proof {
            let m = self.tonal_noise_mix as int;
            crate::fixed::lemma_mul_q_bound(tonal as int, (SCALE as int) - m, SCALE as int, (SCALE as int) - m);
            assert((SCALE as int) * ((SCALE as int) - m) == ((SCALE as int) - m) * (SCALE as int))
                by (nonlinear_arith);
            vstd::arithmetic::div_mod::lemma_div_by_multiple((SCALE as int) - m, SCALE as int);
            crate::fixed::lemma_mul_q_bound(noise as int, m, SCALE as int, m);
            assert((SCALE as int) * m == m * (SCALE as int)) by (nonlinear_arith);
            vstd::arithmetic::div_mod::lemma_div_by_multiple(m, SCALE as int);
            if self.tonal_noise_mix == 0 {
                crate::fixed::lemma_mul_q_identity(tonal as int);
                assert((noise as int) * 0 == 0) by (nonlinear_arith);
                vstd::arithmetic::div_mod::lemma_div_of0(SCALE as int);
            }
        }
        let mixed: i64 = dry + wet;
        let amp: i64 = self.envelope.get_amplitude(current_time);
        let shaped: i64 = mul_q(mixed, amp);
        proof {
            crate::fixed::lemma_mul_q_gain(mixed as int, amp as int, SCALE as int);
        }
        let out: i64 = mul_q(shaped, self.volume);
        proof {
            let v = self.volume as int;
            crate::fixed::lemma_mul_q_bound(shaped as int, v, SCALE as int, v);
            assert((SCALE as int) * v == v * (SCALE as int)) by (nonlinear_arith);
            vstd::arithmetic::div_mod::lemma_div_by_multiple(v, SCALE as int);
            assert(out == old(self).spec_tick_sample_with(current_time as int, noise_raw as int));
        }
        out
    }
}

} // verus!
