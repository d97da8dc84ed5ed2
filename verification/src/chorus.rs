//! Chorus: the input blended with a delayed copy whose delay time is
//! modulated by a slow sine, over a bounded delay line.

use vstd::prelude::*;

use crate::fixed::{clamp_i64, mul_q, sine_q, spec_clamp, SCALE};
use crate::filters::FILTER_BOUND;
use crate::oscillator::{SR_MAX, SR_MIN};

verus! {

/// Lowest accepted chorus LFO rate, millihertz (0.1 Hz).
pub const CHORUS_LFO_MIN: u64 = 100;

/// Highest accepted chorus LFO rate, millihertz (10 Hz).
pub const CHORUS_LFO_MAX: u64 = 10_000;

/// Phase units per LFO cycle (a 32-bit turn counter).
pub const CHORUS_PHASE_ONE: u64 = 4_294_967_296;

/// Phase increment of the chorus LFO for one sample.
pub open spec fn spec_chorus_phase_inc(freq_mhz: int, sr: int) -> int {
    freq_mhz * (CHORUS_PHASE_ONE as int) / (1000 * sr)
}

/// A chorus effect: a delay line of at most 50 ms, a sine LFO that sweeps
/// the tap position around a base delay, and a wet/dry mix.
pub struct Chorus {
    pub sample_rate: u32,
    pub delay_buffer: Vec<i64>,
    pub max_delay_samples: usize,
    pub lfo_phase: u64,
    pub lfo_frequency_mhz: u64,
    pub base_delay_samples: u64,
    pub modulation_depth_samples: u64,
    pub mix: i64,
    pub enabled: bool,
}

impl Chorus {
    /// Buffer inside the 50 ms cap with bounded samples, delays and LFO in
    /// range.
    pub open spec fn wf(self) -> bool {
        &&& SR_MIN <= self.sample_rate <= SR_MAX
        &&& self.max_delay_samples == self.sample_rate / 20
        &&& self.delay_buffer@.len() <= self.max_delay_samples
        &&& forall|i: int|
            0 <= i < self.delay_buffer@.len() ==> -FILTER_BOUND <= #[trigger] self.delay_buffer@[i]
                <= FILTER_BOUND
        &&& self.lfo_phase < CHORUS_PHASE_ONE
        &&& CHORUS_LFO_MIN <= self.lfo_frequency_mhz <= CHORUS_LFO_MAX
        &&& 1 <= self.base_delay_samples <= 40 * (self.sample_rate as int) / 1000
        &&& 1 <= self.modulation_depth_samples <= 20 * (self.sample_rate as int) / 1000
        &&& 0 <= self.mix <= SCALE
    }

    /// Every sample in the delay line sits inside one full-scale unit.
    pub open spec fn spec_unit_range(self) -> bool {
        forall|i: int|
            0 <= i < self.delay_buffer@.len() ==> -SCALE <= #[trigger] self.delay_buffer@[i]
                <= SCALE
    }

    /// A fresh, disabled chorus (sample rate clamped): 15 ms base delay,
    /// 5 ms modulation depth, 0.5 Hz LFO, half wet.
    pub fn new(sample_rate: u32) -> (r: Chorus)
        ensures
            r.wf(),
            !r.enabled,
            r.delay_buffer@.len() == 0,
            r.mix == SCALE / 2,
            r.lfo_frequency_mhz == 500,
    {
        let sr: u32 = if sample_rate < SR_MIN {
            SR_MIN
        } else if sample_rate > SR_MAX {
            SR_MAX
        } else {
            sample_rate
        };
        Chorus {
            sample_rate: sr,
            delay_buffer: Vec::new(),
            max_delay_samples: (sr / 20) as usize,
            lfo_phase: 0,
            lfo_frequency_mhz: 500,
            base_delay_samples: 15 * (sr as u64) / 1000,
            modulation_depth_samples: 5 * (sr as u64) / 1000,
            mix: SCALE / 2,
            enabled: false,
        }
    }

    /// One chorused sample: the input enters the delay line (oldest sample
    /// dropped at the 50 ms cap), the LFO picks the tap position around the
    /// base delay, and dry and wet are blended at the mix ratio. Disabled,
    /// the input passes through and nothing moves.
    pub fn process(&mut self, input: i64) -> (r: i64)
        requires
            old(self).wf(),
        ensures
            final(self).wf(),
            !old(self).enabled ==> r == input && *final(self) == *old(self),
            old(self).enabled ==> -FILTER_BOUND <= r <= FILTER_BOUND,
            old(self).enabled ==> final(self).lfo_phase == (old(self).lfo_phase
                + spec_chorus_phase_inc(
                old(self).lfo_frequency_mhz as int,
                old(self).sample_rate as int,
            )) % (CHORUS_PHASE_ONE as int),
            final(self).mix == old(self).mix,
            final(self).enabled == old(self).enabled,
            final(self).sample_rate == old(self).sample_rate,
            final(self).base_delay_samples == old(self).base_delay_samples,
            final(self).modulation_depth_samples == old(self).modulation_depth_samples,
            final(self).lfo_frequency_mhz == old(self).lfo_frequency_mhz,
            old(self).spec_unit_range() && -SCALE <= input <= SCALE ==> -SCALE <= r <= SCALE
                && final(self).spec_unit_range(),
    {
        if !self.enabled {
            return input;
        }
        let clamped: i64 = clamp_i64(input, -FILTER_BOUND, FILTER_BOUND);
        self.delay_buffer.push(clamped);
        if self.delay_buffer.len() > self.max_delay_samples {
            self.delay_buffer.remove(0);
        }
        let len: usize = self.delay_buffer.len();
        let phase_now: u64 = self.lfo_phase;
        proof {
            assert(phase_now >> 16 < 65536) by (bit_vector)
                requires
                    phase_now < 4_294_967_296,
            ;
        }
        let lfo_value: i64 = sine_q((phase_now >> 16) as u32);
        let swing: i64 = mul_q(lfo_value, self.modulation_depth_samples as i64);
        proof {
            crate::fixed::lemma_mul_q_bound(
                lfo_value as int,
                self.modulation_depth_samples as int,
                SCALE as int,
                self.modulation_depth_samples as int,
            );
            vstd::arithmetic::div_mod::lemma_div_is_ordered(
                (SCALE as int) * (self.modulation_depth_samples as int),
                65536int * 4_000int,
                SCALE as int,
            );
            assert((SCALE as int) * (self.modulation_depth_samples as int) <= 65536int * 4_000int)
                by (nonlinear_arith)
                requires
                    SCALE == 65536,
                    0 <= self.modulation_depth_samples <= 4_000,
            ;
        }
        let delayed: i64 = if len == 1 {
            self.delay_buffer[0]
        } else {
            let want: i64 = (self.base_delay_samples as i64) + swing;
            let d: i64 = clamp_i64(want, 1, (len as i64) - 1);
            let idx: usize = len - (d as usize);
            self.delay_buffer[idx]
        };
        let inc: u64 = self.lfo_frequency_mhz * CHORUS_PHASE_ONE / (1000 * (
        self.sample_rate as u64));
        proof {
            vstd::arithmetic::div_mod::lemma_div_pos_is_pos(
                (self.lfo_frequency_mhz as int) * (CHORUS_PHASE_ONE as int),
                1000 * (self.sample_rate as int),
            );
        }
        self.lfo_phase = (self.lfo_phase + inc) % CHORUS_PHASE_ONE;
        let dry: i64 = mul_q(clamped, SCALE - self.mix);
        let wet: i64 = mul_q(delayed, self.mix);
        proof {
            crate::fixed::lemma_mul_q_gain(
                clamped as int,
                (SCALE - self.mix) as int,
                FILTER_BOUND as int,
            );
            crate::fixed::lemma_mul_q_gain(delayed as int, self.mix as int, FILTER_BOUND as int);
            if old(self).spec_unit_range() && -SCALE <= input <= SCALE {
                let m = self.mix as int;
                crate::fixed::lemma_mul_q_bound(
                    clamped as int,
                    (SCALE as int) - m,
                    SCALE as int,
                    (SCALE as int) - m,
                );
                assert((SCALE as int) * ((SCALE as int) - m) == ((SCALE as int) - m) * (
                SCALE as int)) by (nonlinear_arith);
                vstd::arithmetic::div_mod::lemma_div_by_multiple(
                    (SCALE as int) - m,
                    SCALE as int,
                );
                crate::fixed::lemma_mul_q_bound(delayed as int, m, SCALE as int, m);
                assert((SCALE as int) * m == m * (SCALE as int)) by (nonlinear_arith);
                vstd::arithmetic::div_mod::lemma_div_by_multiple(m, SCALE as int);
            }
        }
        clamp_i64(dry + wet, -FILTER_BOUND, FILTER_BOUND)
    }

    /// Enables or disables the effect; disabling clears the delay line and
    /// rewinds the LFO so no artifacts bleed into the next pass.
    pub fn set_enabled(&mut self, enabled: bool)
        requires
            old(self).wf(),
        ensures
            final(self).wf(),
            final(self).enabled == enabled,
            !enabled ==> final(self).delay_buffer@.len() == 0 && final(self).lfo_phase == 0,
            final(self).mix == old(self).mix,
            final(self).sample_rate == old(self).sample_rate,
    {
        self.enabled = enabled;
        if !enabled {
            self.delay_buffer.clear();
            self.lfo_phase = 0;
        }
    }

    /// Whether the effect is enabled.
    pub fn is_enabled(&self) -> (r: bool)
        ensures
            r == self.enabled,
    {
        self.enabled
    }

    /// Sets the wet/dry mix, clamped into `[0, SCALE]`.
    pub fn set_mix(&mut self, mix: i64)
        requires
            old(self).wf(),
        ensures
            final(self).wf(),
            final(self).mix == spec_clamp(mix as int, 0, SCALE as int),
            *final(self) == (Chorus { mix: final(self).mix, ..*old(self) }),
    {
        self.mix = clamp_i64(mix, 0, SCALE);
    }

    /// The wet/dry mix.
    pub fn get_mix(&self) -> (r: i64)
        ensures
            r == self.mix,
    {
        self.mix
    }

    /// Sets the LFO rate (millihertz), clamped.
    pub fn set_lfo_frequency(&mut self, frequency_mhz: u64)
        requires
            old(self).wf(),
        ensures
            final(self).wf(),
            final(self).lfo_frequency_mhz == spec_clamp(
                frequency_mhz as int,
                CHORUS_LFO_MIN as int,
                CHORUS_LFO_MAX as int,
            ),
            *final(self) == (Chorus {
                lfo_frequency_mhz: final(self).lfo_frequency_mhz,
                ..*old(self)
            }),
    {
        self.lfo_frequency_mhz = crate::fixed::clamp_u64(
            frequency_mhz,
            CHORUS_LFO_MIN,
            CHORUS_LFO_MAX,
        );
    }

    /// The LFO rate, millihertz.
    pub fn get_lfo_frequency(&self) -> (r: u64)
        ensures
            r == self.lfo_frequency_mhz,
    {
        self.lfo_frequency_mhz
    }

    /// Sets the base delay in milliseconds (clamped to 1..40) and converts
    /// it to samples.
    pub fn set_base_delay_ms(&mut self, delay_ms: u64)
        requires
            old(self).wf(),
        ensures
            final(self).wf(),
            final(self).base_delay_samples == spec_clamp(delay_ms as int, 1, 40) * (
            old(self).sample_rate as int) / 1000,
            *final(self) == (Chorus {
                base_delay_samples: final(self).base_delay_samples,
                ..*old(self)
            }),
    {
        let ms: u64 = crate::fixed::clamp_u64(delay_ms, 1, 40);
        proof {
            assert((ms as int) * (self.sample_rate as int) >= 8_000) by (nonlinear_arith)
                requires
                    ms >= 1,
                    self.sample_rate >= 8_000,
            ;
            assert((ms as int) * (self.sample_rate as int) <= 40 * (self.sample_rate as int))
                by (nonlinear_arith)
                requires
                    ms <= 40,
                    self.sample_rate >= 0,
            ;
            vstd::arithmetic::div_mod::lemma_div_is_ordered(
                8_000,
                (ms as int) * (self.sample_rate as int),
                1000,
            );
            vstd::arithmetic::div_mod::lemma_div_is_ordered(
                (ms as int) * (self.sample_rate as int),
                40 * (self.sample_rate as int),
                1000,
            );
        }
        self.base_delay_samples = ms * (self.sample_rate as u64) / 1000;
    }

    /// The base delay, milliseconds.
    pub fn get_base_delay_ms(&self) -> (r: u64)
        requires
            self.wf(),
        ensures
            r == self.base_delay_samples * 1000 / (self.sample_rate as int),
    {
        self.base_delay_samples * 1000 / (self.sample_rate as u64)
    }

    /// Sets the modulation depth in milliseconds (clamped to 1..20) and
    /// converts it to samples.
    pub fn set_modulation_depth_ms(&mut self, depth_ms: u64)
        requires
            old(self).wf(),
        ensures
            final(self).wf(),
            final(self).modulation_depth_samples == spec_clamp(depth_ms as int, 1, 20) * (
            old(self).sample_rate as int) / 1000,
            *final(self) == (Chorus {
                modulation_depth_samples: final(self).modulation_depth_samples,
                ..*old(self)
            }),
    {
        let ms: u64 = crate::fixed::clamp_u64(depth_ms, 1, 20);
        proof {
            assert((ms as int) * (self.sample_rate as int) >= 8_000) by (nonlinear_arith)
                requires
                    ms >= 1,
                    self.sample_rate >= 8_000,
            ;
            assert((ms as int) * (self.sample_rate as int) <= 20 * (self.sample_rate as int))
                by (nonlinear_arith)
                requires
                    ms <= 20,
                    self.sample_rate >= 0,
            ;
            vstd::arithmetic::div_mod::lemma_div_is_ordered(
                8_000,
                (ms as int) * (self.sample_rate as int),
                1000,
            );
            vstd::arithmetic::div_mod::lemma_div_is_ordered(
                (ms as int) * (self.sample_rate as int),
                20 * (self.sample_rate as int),
                1000,
            );
        }
        self.modulation_depth_samples = ms * (self.sample_rate as u64) / 1000;
    }

    /// The modulation depth, milliseconds.
    pub fn get_modulation_depth_ms(&self) -> (r: u64)
        requires
            self.wf(),
        ensures
            r == self.modulation_depth_samples * 1000 / (self.sample_rate as int),
    {
        self.modulation_depth_samples * 1000 / (self.sample_rate as u64)
    }
}

} // verus!
