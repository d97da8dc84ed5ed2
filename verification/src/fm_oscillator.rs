//! FM transient generator: a carrier sine whose phase is pushed by a
//! modulator sine, the push depth driven by a fast-decay envelope. Used as
//! the beater "snap" of a drum hit.

use vstd::prelude::*;

use crate::envelope::{ADSRConfig, Envelope};
use crate::fixed::{mul_q, sine_q, spec_mul_q, spec_sine_q, SCALE};
use crate::oscillator::{FREQ_MAX, FREQ_MIN, SR_MAX, SR_MIN};

verus! {

/// Two pi in Q16.16: the length of one cycle in radian units, used to turn
/// a radian phase push into a cycle fraction.
pub const TWO_PI_Q16: i64 = 411_775;

/// Cycle position (65536 units per cycle) of tick `ticks` for a tone at
/// `freq` millihertz under `sr` Hz; `ticks` wraps at `1000 * sr`, which
/// leaves this value unchanged.
pub open spec fn spec_fm_frac(ticks: int, freq: int, sr: int) -> int {
    ((ticks * freq) % (1000 * sr)) * 65536 / (1000 * sr)
}

/// One FM sample at tick `ticks`: the carrier sine read at its own cycle
/// position plus a push of `mod_index * modulator` radians expressed in
/// cycle units.
pub open spec fn spec_fm_sample(
    ticks: int,
    carrier: int,
    modulator: int,
    sr: int,
    mod_index: int,
) -> int {
    let m = spec_sine_q(spec_fm_frac(ticks, modulator, sr));
    let push = crate::fixed::spec_div_t(spec_mul_q(mod_index, m) * 65536, TWO_PI_Q16 as int);
    spec_sine_q(((spec_fm_frac(ticks, carrier, sr) + push) % 65536 + 65536) % 65536)
}

/// Exec twin of `spec_fm_frac`.
fn fm_frac(ticks: u32, freq: u64, sr: u32) -> (r: u32)
    requires
        ticks < 1000 * sr,
        SR_MIN <= sr <= SR_MAX,
        FREQ_MIN <= freq <= FREQ_MAX,
    ensures
        r == spec_fm_frac(ticks as int, freq as int, sr as int),
        r < 65536,
{
    let den: u64 = 1000 * (sr as u64);
    proof {
        assert((ticks as int) * (freq as int) <= 192_000_000int * 20_000_000int)
            by (nonlinear_arith)
            requires
                0 <= ticks < 1000 * sr,
                sr <= 192_000,
                0 <= freq <= 20_000_000,
        ;
    }
    let turns: u64 = (ticks as u64) * freq;
    let rem: u64 = turns % den;
    let frac: u64 = rem * 65536 / den;
    proof {
        assert((rem as int) * 65536 < (den as int) * 65536) by (nonlinear_arith)
            requires
                0 <= rem < den,
        ;
        vstd::arithmetic::div_mod::lemma_multiply_divide_lt((rem as int) * 65536, den as int, 65536);
        vstd::arithmetic::div_mod::lemma_div_pos_is_pos((rem as int) * 65536, den as int);
    }
    frac as u32
}

/// An FM generator: carrier and modulator frequencies (millihertz), a tick
/// counter since the last trigger, the modulation-depth envelope, and a
/// volume.
pub struct FMOscillator {
    pub sample_rate: u32,
    pub carrier_freq: u64,
    pub modulator_freq: u64,
    pub time_ticks: u32,
    pub mod_index_envelope: Envelope,
    pub volume: i64,
}

impl FMOscillator {
    /// Rates, frequencies, counter, volume and the envelope in range.
    pub open spec fn wf(self) -> bool {
        &&& SR_MIN <= self.sample_rate <= SR_MAX
        &&& FREQ_MIN <= self.carrier_freq <= FREQ_MAX
        &&& FREQ_MIN <= self.modulator_freq <= FREQ_MAX
        &&& self.time_ticks < 1000 * self.sample_rate
        &&& 0 <= self.volume <= SCALE
        &&& self.mod_index_envelope.wf()
    }

    /// A fresh generator (inputs clamped) with the fast-decay snap
    /// envelope: 1 ms attack, 10 ms decay, no sustain, 1 ms release.
    pub fn new(sample_rate: u32, carrier_freq: u64, modulator_freq: u64) -> (r: FMOscillator)
        ensures
            r.wf(),
            !r.mod_index_envelope.is_active,
            r.time_ticks == 0,
            r.volume == SCALE,
            r.sample_rate == crate::fixed::spec_clamp(sample_rate as int, SR_MIN as int, SR_MAX as int),
            r.mod_index_envelope.config() == (ADSRConfig {
                attack_time: 1_000u64,
                decay_time: 10_000u64,
                sustain_level: 0i64,
                release_time: 1_000u64,
            }),
    {
        let sr: u32 = if sample_rate < SR_MIN {
            SR_MIN
        } else if sample_rate > SR_MAX {
            SR_MAX
        } else {
            sample_rate
        };
        let config = ADSRConfig::new(1_000, 10_000, 0, 1_000);
        FMOscillator {
            sample_rate: sr,
            carrier_freq: crate::fixed::clamp_u64(carrier_freq, FREQ_MIN, FREQ_MAX),
            modulator_freq: crate::fixed::clamp_u64(modulator_freq, FREQ_MIN, FREQ_MAX),
            time_ticks: 0,
            mod_index_envelope: Envelope::with_config(config),
            volume: SCALE,
        }
    }

    /// Restarts the envelope at `time` and rewinds the tick counter.
    pub fn trigger(&mut self, time: u64)
        requires
            old(self).wf(),
        ensures
            final(self).wf(),
            final(self).mod_index_envelope.is_active,
            final(self).mod_index_envelope.trigger_time == time,
            final(self).mod_index_envelope.config() == old(self).mod_index_envelope.config(),
            final(self).time_ticks == 0,
            *final(self) == (FMOscillator {
                mod_index_envelope: final(self).mod_index_envelope,
                time_ticks: 0u32,
                ..*old(self)
            }),
    {
        self.mod_index_envelope.trigger(time);
        self.time_ticks = 0;
    }

    /// Forwarded to the envelope, whose release tail is baked into its
    /// shape: nothing moves.
    pub fn release(&mut self, time: u64)
        ensures
            *final(self) == *old(self),
    {
        self.mod_index_envelope.release(time);
    }

    /// Sets the volume, clamped into `[0, SCALE]`.
    pub fn set_volume(&mut self, volume: i64)
        ensures
            final(self).volume == crate::fixed::spec_clamp(volume as int, 0, SCALE as int),
            *final(self) == (FMOscillator { volume: final(self).volume, ..*old(self) }),
    {
        self.volume = crate::fixed::clamp_i64(volume, 0, SCALE);
    }

    /// Sets the carrier frequency, clamped.
    pub fn set_carrier_freq(&mut self, freq: u64)
        ensures
            final(self).carrier_freq == crate::fixed::spec_clamp(
                freq as int,
                FREQ_MIN as int,
                FREQ_MAX as int,
            ),
            *final(self) == (FMOscillator { carrier_freq: final(self).carrier_freq, ..*old(self) }),
    {
        self.carrier_freq = crate::fixed::clamp_u64(freq, FREQ_MIN, FREQ_MAX);
    }

    /// Sets the modulator frequency, clamped.
    pub fn set_modulator_freq(&mut self, freq: u64)
        ensures
            final(self).modulator_freq == crate::fixed::spec_clamp(
                freq as int,
                FREQ_MIN as int,
                FREQ_MAX as int,
            ),
            *final(self) == (FMOscillator {
                modulator_freq: final(self).modulator_freq,
                ..*old(self)
            }),
    {
        self.modulator_freq = crate::fixed::clamp_u64(freq, FREQ_MIN, FREQ_MAX);
    }

    /// Replaces the modulation-depth envelope settings.
    pub fn set_mod_index_adsr(&mut self, config: ADSRConfig)
        requires
            config.wf(),
        ensures
            final(self).mod_index_envelope.config() == config,
            final(self).mod_index_envelope.is_active == old(self).mod_index_envelope.is_active,
            final(self).mod_index_envelope.trigger_time == old(
                self,
            ).mod_index_envelope.trigger_time,
            *final(self) == (FMOscillator {
                mod_index_envelope: final(self).mod_index_envelope,
                ..*old(self)
            }),
    {
        self.mod_index_envelope.set_config(config);
    }

    /// One FM sample at absolute time `current_time`: the spec sample at
    /// the current tick under the envelope's modulation depth, scaled by
    /// the volume; the tick counter then advances by one, wrapping.
    #[verifier::rlimit(100)]
    #[verifier::spinoff_prover]
    pub fn tick(&mut self, current_time: u64) -> (r: i64)
        requires
            old(self).wf(),
        ensures
            final(self).wf(),
            r == spec_mul_q(
                spec_fm_sample(
                    old(self).time_ticks as int,
                    old(self).carrier_freq as int,
                    old(self).modulator_freq as int,
                    old(self).sample_rate as int,
                    old(self).mod_index_envelope.spec_amplitude(current_time as int),
                ),
                old(self).volume as int,
            ),
            -SCALE <= r <= SCALE,
            final(self).time_ticks == (old(self).time_ticks + 1) % (1000 * old(
                self,
            ).sample_rate as int),
            final(self).mod_index_envelope.config() == old(self).mod_index_envelope.config(),
            final(self).mod_index_envelope.trigger_time == old(
                self,
            ).mod_index_envelope.trigger_time,
            final(self).mod_index_envelope.is_active == old(
                self,
            ).mod_index_envelope.spec_running(current_time as int),
            final(self).carrier_freq == old(self).carrier_freq,
            final(self).modulator_freq == old(self).modulator_freq,
            final(self).sample_rate == old(self).sample_rate,
            final(self).volume == old(self).volume,
    {
        let mod_index: i64 = self.mod_index_envelope.get_amplitude(current_time);
        let m: i64 = sine_q(fm_frac(self.time_ticks, self.modulator_freq, self.sample_rate));
        let depth: i64 = mul_q(mod_index, m);
        proof {
            crate::fixed::lemma_mul_q_bound(
                mod_index as int,
                m as int,
                SCALE as int,
                SCALE as int,
            );
            vstd::arithmetic::div_mod::lemma_div_by_multiple(SCALE as int, SCALE as int);
        }
        let push: i64 = if depth >= 0 {
            ((depth as u64) * 65536 / (TWO_PI_Q16 as u64)) as i64
        } else {
            -((((-depth) as u64) * 65536 / (TWO_PI_Q16 as u64)) as i64)
        };
        proof {
            let d = if depth >= 0 {
                depth as int
            } else {
                -(depth as int)
            };
            vstd::arithmetic::div_mod::lemma_multiply_divide_le(
                d * 65536,
                TWO_PI_Q16 as int,
                d as int,
            );
            assert(d * 65536 <= (TWO_PI_Q16 as int) * d) by (nonlinear_arith)
                requires
                    d >= 0,
                    TWO_PI_Q16 >= 65536,
            ;
            vstd::arithmetic::div_mod::lemma_div_pos_is_pos(d * 65536, TWO_PI_Q16 as int);
        }
        let carrier_frac: u32 = fm_frac(self.time_ticks, self.carrier_freq, self.sample_rate);
        let shifted: i64 = (carrier_frac as i64) + push;
        let total: i64 = ((shifted % 65536) + 65536) % 65536;
        let sample: i64 = sine_q(total as u32);
        proof {
            assert(((shifted as int) % 65536 + 65536) % 65536 == (total as int));
        }
        self.time_ticks = (self.time_ticks + 1) % (1000 * self.sample_rate);
        let out: i64 = mul_q(sample, self.volume);
        proof {
            crate::fixed::lemma_mul_q_gain(sample as int, self.volume as int, SCALE as int);
        }
        out
    }
}

} // verus!
