//! Hi-hat voice: snare-colored noise plus a metallic square partial, pushed
//! through a resonant high-pass whose corner follows the brightness knob,
//! with a short closed or long open envelope.

use vstd::prelude::*;

use crate::envelope::Envelope;
use crate::filters::{spec_biquad_out, ResonantHighpassFilter, FILTER_BOUND, Q_MAX, Q_MIN};
use crate::fixed::{clamp_i64, clamp_u64, mul_q, spec_clamp, spec_mul_q, SCALE};
use crate::kick::{adsr_from_i64, spec_adsr_i};
use crate::noise::{NoiseGenerator, NoiseType};
use crate::oscillator::{Oscillator, FREQ_MAX, FREQ_MIN, OSC_RAW_BOUND, SR_MAX, SR_MIN};
use crate::waveform::Waveform;

verus! {

/// Parameters of one hi-hat voice: the metallic base frequency
/// (millihertz), filter resonance (Q16.16 Q), brightness (Q16.16 amount
/// opening the high-pass), envelope times (microseconds), volume, and
/// whether the hat is open.
#[derive(Clone, Copy, Debug, PartialEq, Eq, Structural)]
pub struct HiHatConfig {
    pub base_frequency: u64,
    pub resonance: i64,
    pub brightness: i64,
    pub decay_time: u64,
    pub attack_time: u64,
    pub volume: i64,
    pub is_open: bool,
}

impl HiHatConfig {
    /// Every knob sits inside its accepted interval.
    pub open spec fn wf(self) -> bool {
        &&& 1_000_000 <= self.base_frequency <= FREQ_MAX
        &&& Q_MIN <= self.resonance <= Q_MAX
        &&& 0 <= self.brightness <= SCALE
        &&& 1_000 <= self.decay_time <= 5_000_000
        &&& 100 <= self.attack_time <= 100_000
        &&& 0 <= self.volume <= SCALE
    }

    /// Builds a configuration, clamping every knob into its interval.
    pub fn new(
        base_frequency: u64,
        resonance: i64,
        brightness: i64,
        decay_time: u64,
        attack_time: u64,
        volume: i64,
        is_open: bool,
    ) -> (r: HiHatConfig)
        ensures
            r.wf(),
            r.base_frequency == spec_clamp(base_frequency as int, 1_000_000, FREQ_MAX as int),
            r.resonance == spec_clamp(resonance as int, Q_MIN as int, Q_MAX as int),
            r.brightness == spec_clamp(brightness as int, 0, SCALE as int),
            r.decay_time == spec_clamp(decay_time as int, 1_000, 5_000_000),
            r.attack_time == spec_clamp(attack_time as int, 100, 100_000),
            r.volume == spec_clamp(volume as int, 0, SCALE as int),
            r.is_open == is_open,
    {
        HiHatConfig {
            base_frequency: clamp_u64(base_frequency, 1_000_000, FREQ_MAX),
            resonance: clamp_i64(resonance, Q_MIN, Q_MAX),
            brightness: clamp_i64(brightness, 0, SCALE),
            decay_time: clamp_u64(decay_time, 1_000, 5_000_000),
            attack_time: clamp_u64(attack_time, 100, 100_000),
            volume: clamp_i64(volume, 0, SCALE),
            is_open,
        }
    }

    /// The stock closed hat: short and crisp.
    pub fn closed_default() -> (r: HiHatConfig)
        ensures
            r.wf(),
            !r.is_open,
    {
        HiHatConfig::new(8_000_000, 2 * SCALE, 39_322, 80_000, 500, 52_429, false)
    }

    /// The stock open hat: the same voicing with a long tail.
    pub fn open_default() -> (r: HiHatConfig)
        ensures
            r.wf(),
            r.is_open,
    {
        HiHatConfig::new(8_000_000, 2 * SCALE, 39_322, 400_000, 500, 52_429, true)
    }

    /// A very short, damped closed hat.
    pub fn closed_tight() -> (r: HiHatConfig)
        ensures
            r.wf(),
            !r.is_open,
    {
        HiHatConfig::new(9_000_000, 3 * SCALE, 26_214, 40_000, 300, 49_152, false)
    }

    /// A bright, sizzling open hat.
    pub fn open_bright() -> (r: HiHatConfig)
        ensures
            r.wf(),
            r.is_open,
    {
        HiHatConfig::new(10_000_000, 2 * SCALE, 58_982, 500_000, 500, 55_706, true)
    }

    /// A darker closed hat with the filter mostly shut.
    pub fn closed_dark() -> (r: HiHatConfig)
        ensures
            r.wf(),
            !r.is_open,
    {
        HiHatConfig::new(6_000_000, 2 * SCALE, 13_107, 90_000, 700, 45_875, false)
    }

    /// An open hat with an extended tail.
    pub fn open_long() -> (r: HiHatConfig)
        ensures
            r.wf(),
            r.is_open,
    {
        HiHatConfig::new(8_000_000, 2 * SCALE, 39_322, 900_000, 500, 52_429, true)
    }
}

/// A hi-hat voice.
pub struct HiHat {
    pub sample_rate: u32,
    pub config: HiHatConfig,
    pub noise: NoiseGenerator,
    pub metallic_oscillator: Oscillator,
    pub amp_envelope: Envelope,
    pub tone_filter: ResonantHighpassFilter,
    pub is_active: bool,
}

impl HiHat {
    /// Every owned component is well formed and runs at the voice's rate.
    pub open spec fn wf(self) -> bool {
        &&& SR_MIN <= self.sample_rate <= SR_MAX
        &&& self.config.wf()
        &&& self.noise.wf() && self.noise.spec_noise_type() == NoiseType::Snare
        &&& self.metallic_oscillator.wf() && self.metallic_oscillator.sample_rate
            == self.sample_rate && self.metallic_oscillator.enabled
            && self.metallic_oscillator.waveform == Waveform::Square
        &&& self.amp_envelope.wf()
        &&& self.tone_filter.wf() && self.tone_filter.sample_rate == self.sample_rate
    }

    /// The voice's parameters agree with its configuration: the metallic
    /// partial at the base frequency, the amplitude envelope from the
    /// attack and decay knobs (the release a fifth of the decay), and the
    /// high-pass corner opened by the brightness.
    pub open spec fn spec_configured(self) -> bool {
        &&& self.metallic_oscillator.waveform == Waveform::Square
        &&& self.metallic_oscillator.frequency_mhz == spec_clamp(
            self.config.base_frequency as int,
            FREQ_MIN as int,
            FREQ_MAX as int,
        )
        &&& self.amp_envelope.config() == spec_adsr_i(
            self.config.attack_time as int,
            self.config.decay_time as int,
            0,
            crate::fixed::spec_div_t(self.config.decay_time as int, 5),
        )
        &&& self.tone_filter.cutoff_mhz == spec_clamp(
            2_000_000 + crate::fixed::spec_mul_q(self.config.brightness as int, 8_000_000),
            FREQ_MIN as int,
            FREQ_MAX as int,
        )
        &&& self.tone_filter.resonance == spec_clamp(
            self.config.resonance as int,
            Q_MIN as int,
            Q_MAX as int,
        )
    }

    /// The sample one sounding tick returns given the noise draw `h`: the
    /// hiss plus the scaled metallic partial, through the tone filter as it
    /// stood, shaped by the envelope and the volume.
    pub open spec fn spec_tick_sample_with(self, t: int, h: int) -> int {
        spec_mul_q(
            spec_mul_q(
                spec_biquad_out(
                    self.tone_filter.coeffs,
                    h + spec_mul_q(self.metallic_oscillator.spec_tick_sample(t), 19_661),
                    self.tone_filter.x1 as int,
                    self.tone_filter.x2 as int,
                    self.tone_filter.y1 as int,
                    self.tone_filter.y2 as int,
                ),
                self.amp_envelope.spec_amplitude(t),
            ),
            self.config.volume as int,
        )
    }

    /// What one sounding tick returns: the blend above, for some
    /// snare-colored noise draw inside one unit.
    pub open spec fn spec_tick_output_ok(self, t: int, r: i64) -> bool {
        exists|h: int| -SCALE <= h <= SCALE && r == #[trigger] self.spec_tick_sample_with(t, h)
    }

    /// A hat with the stock closed configuration.
    pub fn new(sample_rate: u32) -> (r: HiHat)
        ensures
            r.wf(),
            r.spec_configured(),
            !r.is_active,
    {
        HiHat::with_config(sample_rate, HiHatConfig::closed_default())
    }

    /// A hat with the stock closed configuration.
    pub fn new_closed(sample_rate: u32) -> (r: HiHat)
        ensures
            r.wf(),
            r.spec_configured(),
            !r.is_active,
            !r.config.is_open,
    {
        HiHat::with_config(sample_rate, HiHatConfig::closed_default())
    }

    /// A hat with the stock open configuration.
    pub fn new_open(sample_rate: u32) -> (r: HiHat)
        ensures
            r.wf(),
            r.spec_configured(),
            !r.is_active,
            r.config.is_open,
    {
        HiHat::with_config(sample_rate, HiHatConfig::open_default())
    }

    /// A hat with the given configuration (sample rate clamped).
    pub fn with_config(sample_rate: u32, config: HiHatConfig) -> (r: HiHat)
        requires
            config.wf(),
        ensures
            r.wf(),
            r.spec_configured(),
            r.config == config,
            !r.is_active,
    {
        let sr: u32 = if sample_rate < SR_MIN {
            SR_MIN
        } else if sample_rate > SR_MAX {
            SR_MAX
        } else {
            sample_rate
        };
        let mut hat = HiHat {
            sample_rate: sr,
            config,
            noise: NoiseGenerator::new(NoiseType::Snare, 97531),
            metallic_oscillator: Oscillator::new(sr, config.base_frequency),
            amp_envelope: Envelope::new(),
            tone_filter: ResonantHighpassFilter::new(sr, 8_000_000, config.resonance),
            is_active: false,
        };
        hat.configure();
        hat
    }

    /// Derives every sub-component parameter from the configuration.
    fn configure(&mut self)
        requires
            old(self).wf(),
        ensures
            final(self).wf(),
            final(self).spec_configured(),
            final(self).config == old(self).config,
            final(self).sample_rate == old(self).sample_rate,
            final(self).is_active == old(self).is_active,
            final(self).amp_envelope.is_active == old(self).amp_envelope.is_active,
            final(self).amp_envelope.trigger_time == old(self).amp_envelope.trigger_time,
    {
        self.metallic_oscillator.waveform = Waveform::Square;
        self.metallic_oscillator.frequency_mhz = clamp_u64(
            self.config.base_frequency,
            FREQ_MIN,
            FREQ_MAX,
        );
        self.amp_envelope.set_config(
            adsr_from_i64(
                self.config.attack_time as i64,
                self.config.decay_time as i64,
                0,
                crate::fixed::div_t(self.config.decay_time as i64, 5),
            ),
        );
        let opened: i64 = mul_q(self.config.brightness, 8_000_000);
        proof {
            crate::fixed::lemma_mul_q_contract(8_000_000, self.config.brightness as int);
            assert((self.config.brightness as int) * 8_000_000 == 8_000_000 * (
            self.config.brightness as int)) by (nonlinear_arith);
        }
        self.tone_filter.set_cutoff_freq((2_000_000 + opened) as u64);
        self.tone_filter.set_resonance(self.config.resonance);
    }

    /// Replaces the configuration and reconfigures every sub-component.
    pub fn set_config(&mut self, config: HiHatConfig)
        requires
            old(self).wf(),
            config.wf(),
        ensures
            final(self).wf(),
            final(self).spec_configured(),
            final(self).config == config,
            final(self).is_active == old(self).is_active,
    {
        self.config = config;
        self.configure();
    }

    /// Fires the hit at absolute time `time`: the envelope and the metallic
    /// partial retrigger, and the filter registers clear so nothing bleeds
    /// between hits.
    pub fn trigger(&mut self, time: u64)
        requires
            old(self).wf(),
        ensures
            final(self).wf(),
            final(self).is_active,
            final(self).amp_envelope.is_active,
            final(self).amp_envelope.trigger_time == time,
            final(self).tone_filter.x1 == 0 && final(self).tone_filter.x2 == 0 && final(self).tone_filter.y1 == 0 && final(self).tone_filter.y2 == 0,
            final(self).config == old(self).config,
            final(self).sample_rate == old(self).sample_rate,
    {
        self.is_active = true;
        self.amp_envelope.trigger(time);
        self.metallic_oscillator.trigger(time);
        self.tone_filter.reset();
    }

    /// Forwards a release to the envelope, whose release tail is baked into
    /// its shape: nothing moves.
    pub fn release(&mut self, time: u64)
        requires
            old(self).wf(),
        ensures
            final(self).wf(),
            *final(self) == *old(self),
    {
        self.amp_envelope.release(time);
        self.metallic_oscillator.release(time);
    }

    /// One output sample at absolute time `current_time`: the noise and the
    /// metallic partial blended, high-pass filtered, and shaped by the
    /// envelope and the volume; the voice retires when the envelope ends.
    /// Idle, the voice returns exactly zero and nothing moves.
    pub fn tick(&mut self, current_time: u64) -> (r: i64)
        requires
            old(self).wf(),
        ensures
            final(self).wf(),
            -FILTER_BOUND <= r <= FILTER_BOUND,
            !old(self).is_active ==> r == 0 && *final(self) == *old(self),
            final(self).config == old(self).config,
            final(self).sample_rate == old(self).sample_rate,
            old(self).is_active ==> final(self).is_active == final(self).amp_envelope.is_active,
            old(self).is_active ==> final(self).amp_envelope.is_active == old(self).amp_envelope.spec_running(current_time as int),
            old(self).is_active ==> old(self).spec_tick_output_ok(current_time as int, r),
    {
        if !self.is_active {
            return 0;
        }
        let hiss: i64 = self.noise.generate();
        let metal: i64 = self.metallic_oscillator.tick(current_time);
        let metal_part: i64 = mul_q(metal, 19_661);
        proof {
            crate::fixed::lemma_mul_q_gain(metal as int, 19_661, OSC_RAW_BOUND as int);
        }
        let blend: i64 = hiss + metal_part;
        let colored: i64 = self.tone_filter.process(blend);
        let amp: i64 = self.amp_envelope.get_amplitude(current_time);
        let shaped: i64 = mul_q(colored, amp);
        proof {
            crate::fixed::lemma_mul_q_gain(colored as int, amp as int, FILTER_BOUND as int);
        }
        let out: i64 = mul_q(shaped, self.config.volume);
        proof {
            crate::fixed::lemma_mul_q_gain(
                shaped as int,
                self.config.volume as int,
                FILTER_BOUND as int,
            );
        }
        if !self.amp_envelope.is_active {
            self.is_active = false;
        }
        proof {
            assert(out == old(self).spec_tick_sample_with(current_time as int, hiss as int));
        }
        out
    }

    /// Whether the voice is still sounding.
    pub fn is_active(&self) -> (r: bool)
        ensures
            r == self.is_active,
    {
        self.is_active
    }

    /// Sets the overall volume (clamped) and reconfigures.
    pub fn set_volume(&mut self, volume: i64)
        requires
            old(self).wf(),
        ensures
            final(self).wf(),
            final(self).spec_configured(),
            final(self).config.volume == spec_clamp(volume as int, 0, SCALE as int),
            final(self).is_active == old(self).is_active,
    {
        self.config.volume = clamp_i64(volume, 0, SCALE);
        self.configure();
    }

    /// Sets the metallic base frequency (millihertz, clamped) and
    /// reconfigures.
    pub fn set_frequency(&mut self, frequency_mhz: u64)
        requires
            old(self).wf(),
        ensures
            final(self).wf(),
            final(self).spec_configured(),
            final(self).config.base_frequency == spec_clamp(
                frequency_mhz as int,
                1_000_000,
                FREQ_MAX as int,
            ),
            final(self).is_active == old(self).is_active,
    {
        self.config.base_frequency = clamp_u64(frequency_mhz, 1_000_000, FREQ_MAX);
        self.configure();
    }

    /// Sets the decay length (microseconds, clamped) and reconfigures.
    pub fn set_decay(&mut self, decay_us: u64)
        requires
            old(self).wf(),
        ensures
            final(self).wf(),
            final(self).spec_configured(),
            final(self).config.decay_time == spec_clamp(decay_us as int, 1_000, 5_000_000),
            final(self).is_active == old(self).is_active,
    {
        self.config.decay_time = clamp_u64(decay_us, 1_000, 5_000_000);
        self.configure();
    }

    /// Sets the brightness (clamped) and reconfigures the filter corner.
    pub fn set_brightness(&mut self, brightness: i64)
        requires
            old(self).wf(),
        ensures
            final(self).wf(),
            final(self).spec_configured(),
            final(self).config.brightness == spec_clamp(brightness as int, 0, SCALE as int),
            final(self).is_active == old(self).is_active,
    {
        self.config.brightness = clamp_i64(brightness, 0, SCALE);
        self.configure();
    }

    /// Sets the filter resonance (clamped) and reconfigures.
    pub fn set_resonance(&mut self, resonance: i64)
        requires
            old(self).wf(),
        ensures
            final(self).wf(),
            final(self).spec_configured(),
            final(self).config.resonance == spec_clamp(resonance as int, Q_MIN as int, Q_MAX as int),
            final(self).is_active == old(self).is_active,
    {
        self.config.resonance = clamp_i64(resonance, Q_MIN, Q_MAX);
        self.configure();
    }

    /// Sets the attack length (microseconds, clamped) and reconfigures.
    pub fn set_attack(&mut self, attack_us: u64)
        requires
            old(self).wf(),
        ensures
            final(self).wf(),
            final(self).spec_configured(),
            final(self).config.attack_time == spec_clamp(attack_us as int, 100, 100_000),
            final(self).is_active == old(self).is_active,
    {
        self.config.attack_time = clamp_u64(attack_us, 100, 100_000);
        self.configure();
    }

    /// Switches between the open and closed voicing.
    pub fn set_open(&mut self, is_open: bool)
        requires
            old(self).wf(),
        ensures
            final(self).wf(),
            final(self).spec_configured(),
            final(self).config.is_open == is_open,
            final(self).is_active == old(self).is_active,
    {
        self.config.is_open = is_open;
        self.configure();
    }
}

} // verus!
