//! Tom voice: a sine fundamental and a triangle punch partial, swept
//! downward by a pitch envelope, saturated and low-pass filtered.

use vstd::prelude::*;

use crate::envelope::Envelope;
use crate::filters::{spec_biquad_out, ResonantLowpassFilter, FILTER_BOUND};
use crate::fixed::{
    clamp_i64, clamp_u64, mul_q, soft_clip_q, spec_clamp, spec_mul_q, SCALE,
};
use crate::kick::{adsr_from_i64, spec_adsr_i};
use crate::oscillator::{Oscillator, FREQ_MAX, FREQ_MIN, SR_MAX, SR_MIN};
use crate::waveform::Waveform;

verus! {

/// Parameters of one tom voice: fundamental (millihertz), tonal and punch
/// amounts (Q16.16), decay (microseconds), pitch-drop amount (Q16.16) and
/// volume (Q16.16).
#[derive(Clone, Copy, Debug, PartialEq, Eq, Structural)]
pub struct TomConfig {
    pub tom_frequency: u64,
    pub tonal_amount: i64,
    pub punch_amount: i64,
    pub decay_time: u64,
    pub pitch_drop: i64,
    pub volume: i64,
}

impl TomConfig {
    /// Every knob sits inside its accepted interval.
    pub open spec fn wf(self) -> bool {
        &&& 60_000 <= self.tom_frequency <= 400_000
        &&& 0 <= self.tonal_amount <= SCALE
        &&& 0 <= self.punch_amount <= SCALE
        &&& 10_000 <= self.decay_time <= 5_000_000
        &&& 0 <= self.pitch_drop <= SCALE
        &&& 0 <= self.volume <= SCALE
    }

    /// Builds a configuration, clamping every knob into its interval.
    pub fn new(
        tom_frequency: u64,
        tonal_amount: i64,
        punch_amount: i64,
        decay_time: u64,
        pitch_drop: i64,
        volume: i64,
    ) -> (r: TomConfig)
        ensures
            r.wf(),
            r.tom_frequency == spec_clamp(tom_frequency as int, 60_000, 400_000),
            r.tonal_amount == spec_clamp(tonal_amount as int, 0, SCALE as int),
            r.punch_amount == spec_clamp(punch_amount as int, 0, SCALE as int),
            r.decay_time == spec_clamp(decay_time as int, 10_000, 5_000_000),
            r.pitch_drop == spec_clamp(pitch_drop as int, 0, SCALE as int),
            r.volume == spec_clamp(volume as int, 0, SCALE as int),
    {
        TomConfig {
            tom_frequency: clamp_u64(tom_frequency, 60_000, 400_000),
            tonal_amount: clamp_i64(tonal_amount, 0, SCALE),
            punch_amount: clamp_i64(punch_amount, 0, SCALE),
            decay_time: clamp_u64(decay_time, 10_000, 5_000_000),
            pitch_drop: clamp_i64(pitch_drop, 0, SCALE),
            volume: clamp_i64(volume, 0, SCALE),
        }
    }

    /// A mid-register default tom.
    pub fn default() -> (r: TomConfig)
        ensures
            r.wf(),
    {
        TomConfig::new(150_000, 52_429, 39_322, 350_000, 26_214, 52_429)
    }

    /// A small, high tom.
    pub fn high_tom() -> (r: TomConfig)
        ensures
            r.wf(),
    {
        TomConfig::new(240_000, 52_429, 45_875, 250_000, 32_768, 52_429)
    }

    /// A mid tom.
    pub fn mid_tom() -> (r: TomConfig)
        ensures
            r.wf(),
    {
        TomConfig::new(170_000, 52_429, 39_322, 320_000, 26_214, 52_429)
    }

    /// A low tom.
    pub fn low_tom() -> (r: TomConfig)
        ensures
            r.wf(),
    {
        TomConfig::new(120_000, 55_706, 32_768, 420_000, 22_938, 55_706)
    }

    /// A floor tom with a long, deep tail.
    pub fn floor_tom() -> (r: TomConfig)
        ensures
            r.wf(),
    {
        TomConfig::new(80_000, 58_982, 26_214, 550_000, 19_661, 58_982)
    }
}

/// A tom voice.
pub struct TomDrum {
    pub sample_rate: u32,
    pub config: TomConfig,
    pub tonal_oscillator: Oscillator,
    pub punch_oscillator: Oscillator,
    pub pitch_envelope: Envelope,
    pub base_frequency: u64,
    pub output_filter: ResonantLowpassFilter,
    pub is_active: bool,
}

impl TomDrum {
    /// Every owned component is well formed and runs at the voice's rate.
    pub open spec fn wf(self) -> bool {
        &&& SR_MIN <= self.sample_rate <= SR_MAX
        &&& self.config.wf()
        &&& self.tonal_oscillator.wf() && self.tonal_oscillator.sample_rate == self.sample_rate
            && self.tonal_oscillator.enabled && self.tonal_oscillator.waveform == Waveform::Sine
        &&& self.punch_oscillator.wf() && self.punch_oscillator.sample_rate == self.sample_rate
            && self.punch_oscillator.enabled && self.punch_oscillator.waveform
            == Waveform::Triangle
        &&& self.pitch_envelope.wf()
        &&& 60_000 <= self.base_frequency <= 400_000
        &&& self.output_filter.wf() && self.output_filter.sample_rate == self.sample_rate
    }

    /// The voice's parameters agree with its configuration: the sine
    /// fundamental at the tom frequency, the triangle punch at one and a
    /// half times it, both sharing the percussive envelope derived from
    /// the decay knob, and the output low-pass four octaves up.
    pub open spec fn spec_configured(self) -> bool {
        let d = self.config.decay_time as int;
        &&& self.base_frequency == self.config.tom_frequency
        &&& self.tonal_oscillator.waveform == Waveform::Sine
        &&& self.tonal_oscillator.frequency_mhz == self.config.tom_frequency
        &&& self.tonal_oscillator.volume == spec_mul_q(
            self.config.tonal_amount as int,
            self.config.volume as int,
        )
        &&& self.tonal_oscillator.envelope.config() == spec_adsr_i(
            1_000,
            d,
            0,
            crate::fixed::spec_div_t(d, 5),
        )
        &&& self.punch_oscillator.waveform == Waveform::Triangle
        &&& self.punch_oscillator.frequency_mhz == self.config.tom_frequency * 3 / 2
        &&& self.punch_oscillator.volume == spec_mul_q(
            self.config.punch_amount as int,
            self.config.volume as int,
        )
        &&& self.punch_oscillator.envelope.config() == spec_adsr_i(
            1_000,
            crate::fixed::spec_div_t(d, 2),
            0,
            crate::fixed::spec_div_t(d, 10),
        )
        &&& self.pitch_envelope.config() == spec_adsr_i(
            1_000,
            crate::fixed::spec_div_t(d, 2),
            0,
            crate::fixed::spec_div_t(d, 10),
        )
        &&& self.output_filter.cutoff_mhz == spec_clamp(
            16 * self.config.tom_frequency as int,
            FREQ_MIN as int,
            FREQ_MAX as int,
        )
    }

    /// The downward pitch offset at time `t`, millihertz: the pitch-drop
    /// amount mapped to at most 100 Hz, scaled by the pitch envelope.
    pub open spec fn spec_pitch_offset(self, t: int) -> int {
        spec_mul_q(
            spec_mul_q(self.config.pitch_drop as int, 100_000),
            self.pitch_envelope.spec_amplitude(t),
        )
    }

    /// The tonal partial as it sounds at `t`: retuned by the pitch offset.
    pub open spec fn spec_retuned_tonal(self, t: int) -> Oscillator {
        Oscillator {
            frequency_mhz: spec_clamp(
                self.base_frequency + self.spec_pitch_offset(t),
                FREQ_MIN as int,
                FREQ_MAX as int,
            ) as u64,
            ..self.tonal_oscillator
        }
    }

    /// The punch partial as it sounds at `t`: one and a half times the
    /// fundamental, retuned by the pitch offset.
    pub open spec fn spec_retuned_punch(self, t: int) -> Oscillator {
        Oscillator {
            frequency_mhz: spec_clamp(
                self.base_frequency * 3 / 2 + self.spec_pitch_offset(t),
                FREQ_MIN as int,
                FREQ_MAX as int,
            ) as u64,
            ..self.punch_oscillator
        }
    }

    /// The sample one sounding tick returns: both retuned partials summed,
    /// soft-clipped, and put through the output low-pass as it stood.
    pub open spec fn spec_tick_sample_of(self, t: int) -> int {
        spec_biquad_out(
            self.output_filter.coeffs,
            crate::fixed::spec_soft_clip(
                self.spec_retuned_tonal(t).spec_tick_sample(t) + self.spec_retuned_punch(
                    t,
                ).spec_tick_sample(t),
            ),
            self.output_filter.x1 as int,
            self.output_filter.x2 as int,
            self.output_filter.y1 as int,
            self.output_filter.y2 as int,
        )
    }

    /// A tom with the stock configuration.
    pub fn new(sample_rate: u32) -> (r: TomDrum)
        ensures
            r.wf(),
            r.spec_configured(),
            !r.is_active,
    {
        TomDrum::with_config(sample_rate, TomConfig::default())
    }

    /// A tom with the given configuration (sample rate clamped).
    pub fn with_config(sample_rate: u32, config: TomConfig) -> (r: TomDrum)
        requires
            config.wf(),
        ensures
            r.wf(),
            r.spec_configured(),
            r.config == config,
            !r.is_active,
    {
        let sr: u32 = if sample_rate < SR_MIN {
            SR_MIN
        } else if sample_rate > SR_MAX {
            SR_MAX
        } else {
            sample_rate
        };
        let mut tonal = Oscillator::new(sr, config.tom_frequency);
        tonal.waveform = Waveform::Sine;
        let mut punch = Oscillator::new(sr, config.tom_frequency * 3 / 2);
        punch.waveform = Waveform::Triangle;
        let mut tom = TomDrum {
            sample_rate: sr,
            config,
            tonal_oscillator: tonal,
            punch_oscillator: punch,
            pitch_envelope: Envelope::new(),
            base_frequency: config.tom_frequency,
            output_filter: ResonantLowpassFilter::new(sr, 16 * config.tom_frequency, SCALE),
            is_active: false,
        };
        tom.configure();
        tom
    }

    /// Derives every sub-component parameter from the configuration.
    fn configure(&mut self)
        requires
            old(self).wf(),
        ensures
            final(self).wf(),
            final(self).spec_configured(),
            final(self).config == old(self).config,
            final(self).sample_rate == old(self).sample_rate,
            final(self).is_active == old(self).is_active,
            final(self).tonal_oscillator.envelope.is_active == old(self).tonal_oscillator.envelope.is_active,
            final(self).punch_oscillator.envelope.is_active == old(self).punch_oscillator.envelope.is_active,
            final(self).pitch_envelope.is_active == old(self).pitch_envelope.is_active,
    {
        let d: i64 = self.config.decay_time as i64;
        self.tonal_oscillator.waveform = Waveform::Sine;
        self.tonal_oscillator.frequency_mhz = self.config.tom_frequency;
        self.tonal_oscillator.set_volume(mul_q(self.config.tonal_amount, self.config.volume));
        proof {
            crate::fixed::lemma_mul_q_gain(
                self.config.tonal_amount as int,
                self.config.volume as int,
                SCALE as int,
            );
        }
        self.tonal_oscillator.set_adsr(adsr_from_i64(1_000, d, 0, crate::fixed::div_t(d, 5)));
        self.punch_oscillator.waveform = Waveform::Triangle;
        self.punch_oscillator.frequency_mhz = self.config.tom_frequency * 3 / 2;
        proof {
            vstd::arithmetic::div_mod::lemma_div_pos_is_pos(
                3 * (self.config.tom_frequency as int),
                2,
            );
            vstd::arithmetic::div_mod::lemma_div_is_ordered(
                3int * 60_000int,
                3 * (self.config.tom_frequency as int),
                2,
            );
            vstd::arithmetic::div_mod::lemma_div_is_ordered(
                3 * (self.config.tom_frequency as int),
                3int * 400_000int,
                2,
            );
        }
        self.punch_oscillator.set_volume(mul_q(self.config.punch_amount, self.config.volume));
        proof {
            crate::fixed::lemma_mul_q_gain(
                self.config.punch_amount as int,
                self.config.volume as int,
                SCALE as int,
            );
        }
        self.punch_oscillator.set_adsr(
            adsr_from_i64(1_000, crate::fixed::div_t(d, 2), 0, crate::fixed::div_t(d, 10)),
        );
        self.pitch_envelope.set_config(
            adsr_from_i64(1_000, crate::fixed::div_t(d, 2), 0, crate::fixed::div_t(d, 10)),
        );
        self.output_filter.set_cutoff_freq(16 * self.config.tom_frequency);
        self.base_frequency = self.config.tom_frequency;
    }

    /// Replaces the configuration and reconfigures every sub-component.
    pub fn set_config(&mut self, config: TomConfig)
        requires
            old(self).wf(),
            config.wf(),
        ensures
            final(self).wf(),
            final(self).spec_configured(),
            final(self).config == config,
            final(self).is_active == old(self).is_active,
    {
        self.config = config;
        self.base_frequency = config.tom_frequency;
        self.configure();
    }

    /// Fires the hit at absolute time `time`: both oscillators and the
    /// pitch envelope retrigger atomically, and the output filter clears.
    pub fn trigger(&mut self, time: u64)
        requires
            old(self).wf(),
        ensures
            final(self).wf(),
            final(self).is_active,
            final(self).tonal_oscillator.envelope.is_active,
            final(self).tonal_oscillator.envelope.trigger_time == time,
            final(self).punch_oscillator.envelope.is_active,
            final(self).punch_oscillator.envelope.trigger_time == time,
            final(self).pitch_envelope.is_active,
            final(self).pitch_envelope.trigger_time == time,
            final(self).output_filter.x1 == 0 && final(self).output_filter.x2 == 0 && final(self).output_filter.y1 == 0 && final(self).output_filter.y2 == 0,
            final(self).config == old(self).config,
            final(self).sample_rate == old(self).sample_rate,
    {
        self.is_active = true;
        self.tonal_oscillator.trigger(time);
        self.punch_oscillator.trigger(time);
        self.pitch_envelope.trigger(time);
        self.output_filter.reset();
    }

    /// Forwards a release; each release tail is baked into its envelope's
    /// shape, so nothing moves.
    pub fn release(&mut self, time: u64)
        requires
            old(self).wf(),
        ensures
            final(self).wf(),
            *final(self) == *old(self),
    {
        if self.is_active {
            self.tonal_oscillator.release(time);
            self.punch_oscillator.release(time);
            self.pitch_envelope.release(time);
        }
    }

    /// One output sample at absolute time `current_time`: the pitch
    /// envelope's offset retunes both partials, their sum is saturated and
    /// low-pass filtered, and the voice retires once both partials'
    /// envelopes have finished. Idle, the voice returns exactly zero and
    /// nothing moves.
    pub fn tick(&mut self, current_time: u64) -> (r: i64)
        requires
            old(self).wf(),
        ensures
            final(self).wf(),
            -FILTER_BOUND <= r <= FILTER_BOUND,
            !old(self).is_active ==> r == 0 && *final(self) == *old(self),
            final(self).config == old(self).config,
            final(self).sample_rate == old(self).sample_rate,
            final(self).base_frequency == old(self).base_frequency,
            old(self).is_active ==> final(self).is_active == (final(self).tonal_oscillator.envelope.is_active || final(self).punch_oscillator.envelope.is_active || final(self).pitch_envelope.is_active),
            old(self).is_active ==> r == old(self).spec_tick_sample_of(current_time as int),
            old(self).is_active ==> final(self).tonal_oscillator.frequency_mhz == old(self).spec_retuned_tonal(current_time as int).frequency_mhz && final(self).punch_oscillator.frequency_mhz == old(self).spec_retuned_punch(
                current_time as int,
            ).frequency_mhz,
            old(self).is_active ==> final(self).tonal_oscillator.envelope.is_active == old(self).tonal_oscillator.envelope.spec_running(current_time as int) && final(self).punch_oscillator.envelope.is_active == old(self).punch_oscillator.envelope.spec_running(current_time as int) && final(self).pitch_envelope.is_active == old(self).pitch_envelope.spec_running(
                current_time as int,
            ),
    {
        if !self.is_active {
            return 0;
        }
        let sweep: i64 = self.pitch_envelope.get_amplitude(current_time);
        let drop_mhz: i64 = mul_q(self.config.pitch_drop, 100_000);
        proof {
            crate::fixed::lemma_mul_q_contract(100_000, self.config.pitch_drop as int);
            assert((self.config.pitch_drop as int) * 100_000 == 100_000 * (
            self.config.pitch_drop as int)) by (nonlinear_arith);
        }
        let offset: i64 = mul_q(drop_mhz, sweep);
        proof {
            crate::fixed::lemma_mul_q_contract(drop_mhz as int, sweep as int);
        }
        self.tonal_oscillator.frequency_mhz = clamp_u64(
            self.base_frequency + (offset as u64),
            FREQ_MIN,
            FREQ_MAX,
        );
        self.punch_oscillator.frequency_mhz = clamp_u64(
            self.base_frequency * 3 / 2 + (offset as u64),
            FREQ_MIN,
            FREQ_MAX,
        );
        let tonal: i64 = self.tonal_oscillator.tick(current_time);
        let punch: i64 = self.punch_oscillator.tick(current_time);
        let mix: i64 = tonal + punch;
        let saturated: i64 = soft_clip_q(mix);
        let filtered: i64 = self.output_filter.process(saturated);
        if !self.tonal_oscillator.envelope.is_active && !self.punch_oscillator.envelope.is_active
            && !self.pitch_envelope.is_active {
            self.is_active = false;
        }
        filtered
    }

    /// Whether the voice is still sounding.
    pub fn is_active(&self) -> (r: bool)
        ensures
            r == self.is_active,
    {
        self.is_active
    }

    /// Sets the overall volume (clamped) and reconfigures.
    pub fn set_volume(&mut self, volume: i64)
        requires
            old(self).wf(),
        ensures
            final(self).wf(),
            final(self).spec_configured(),
            final(self).config.volume == spec_clamp(volume as int, 0, SCALE as int),
            final(self).is_active == old(self).is_active,
    {
        self.config.volume = clamp_i64(volume, 0, SCALE);
        self.configure();
    }

    /// Sets the fundamental (millihertz, clamped) and reconfigures.
    pub fn set_frequency(&mut self, frequency_mhz: u64)
        requires
            old(self).wf(),
        ensures
            final(self).wf(),
            final(self).spec_configured(),
            final(self).config.tom_frequency == spec_clamp(frequency_mhz as int, 60_000, 400_000),
            final(self).is_active == old(self).is_active,
    {
        self.config.tom_frequency = clamp_u64(frequency_mhz, 60_000, 400_000);
        self.configure();
    }

    /// Sets the decay length (microseconds, clamped) and reconfigures.
    pub fn set_decay(&mut self, decay_us: u64)
        requires
            old(self).wf(),
        ensures
            final(self).wf(),
            final(self).spec_configured(),
            final(self).config.decay_time == spec_clamp(decay_us as int, 10_000, 5_000_000),
            final(self).is_active == old(self).is_active,
    {
        self.config.decay_time = clamp_u64(decay_us, 10_000, 5_000_000);
        self.configure();
    }

    /// Sets the tonal amount (clamped) and reconfigures.
    pub fn set_tonal(&mut self, tonal_amount: i64)
        requires
            old(self).wf(),
        ensures
            final(self).wf(),
            final(self).spec_configured(),
            final(self).config.tonal_amount == spec_clamp(tonal_amount as int, 0, SCALE as int),
            final(self).is_active == old(self).is_active,
    {
        self.config.tonal_amount = clamp_i64(tonal_amount, 0, SCALE);
        self.configure();
    }

    /// Sets the punch amount (clamped) and reconfigures.
    pub fn set_punch(&mut self, punch_amount: i64)
        requires
            old(self).wf(),
        ensures
            final(self).wf(),
            final(self).spec_configured(),
            final(self).config.punch_amount == spec_clamp(punch_amount as int, 0, SCALE as int),
            final(self).is_active == old(self).is_active,
    {
        self.config.punch_amount = clamp_i64(punch_amount, 0, SCALE);
        self.configure();
    }

    /// Sets the pitch-drop amount (clamped) and reconfigures.
    pub fn set_pitch_drop(&mut self, pitch_drop: i64)
        requires
            old(self).wf(),
        ensures
            final(self).wf(),
            final(self).spec_configured(),
            final(self).config.pitch_drop == spec_clamp(pitch_drop as int, 0, SCALE as int),
            final(self).is_active == old(self).is_active,
    {
        self.config.pitch_drop = clamp_i64(pitch_drop, 0, SCALE);
        self.configure();
    }
}

} // verus!
