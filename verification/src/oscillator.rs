//! Band-limited periodic generator owning one ADSR envelope and four seeded
//! noise sources.
//!
//! Non-sine shapes are built by summing sine harmonics of the fundamental and
//! stopping the sum at the first harmonic whose frequency would pass the
//! Nyquist frequency (half the sample rate): that truncation is the whole
//! anti-aliasing mechanism, so no harmonic above Nyquist ever contributes.
//! Frequencies are millihertz, the phase is a sample index below the sample
//! rate, and samples are Q16.16.

use vstd::prelude::*;

use crate::envelope::{ADSRConfig, Envelope};
use crate::fixed::{mul_q, spec_mul_q, spec_sine_q, sine_q, SCALE};
use crate::noise::{NoiseGenerator, NoiseType, PINK_OUT_BOUND};
use crate::waveform::Waveform;

verus! {

/// Lowest accepted sample rate, Hz.
pub const SR_MIN: u32 = 8_000;

/// Highest accepted sample rate, Hz.
pub const SR_MAX: u32 = 192_000;

/// Lowest accepted oscillator frequency, millihertz (1 Hz).
pub const FREQ_MIN: u64 = 1_000;

/// Highest accepted oscillator frequency, millihertz (20 kHz).
pub const FREQ_MAX: u64 = 20_000_000;

/// Lowest accepted ring-modulator frequency, millihertz (0.5 Hz), so that a
/// modulator at half the lowest carrier frequency is representable.
pub const MOD_FREQ_MIN: u64 = 500;

/// Magnitude bound on one raw oscillator sample: a harmonic stack holds at
/// most `500 * SR_MAX / FREQ_MIN + 1` harmonics of at most one unit each.
pub const OSC_RAW_BOUND: i64 = 6_553_600_000;

/// Position inside one cycle, in `[0, PHASE_ONE)` units, of sample `phase`
/// of a tone at `freq` millihertz under `sr` Hz: the fractional part of
/// `phase * freq / (1000 * sr)` cycles.
pub open spec fn spec_phase_frac(phase: int, freq: int, sr: int) -> int {
    ((phase * freq) % (1000 * sr)) * (crate::fixed::PHASE_ONE as int) / (1000 * sr)
}

/// One sample of a pure sine tone at `freq` millihertz: the engine sine at
/// the phase fraction of sample `phase`.
pub open spec fn spec_tone(phase: int, freq: int, sr: int) -> int {
    spec_sine_q(spec_phase_frac(phase, freq, sr))
}

/// Gain of harmonic `n`: `1/n` (Q16.16) for square and saw, `1/n^2` for
/// triangle.
pub open spec fn spec_harmonic_gain(gain_exp: int, n: int) -> int {
    if gain_exp == 1 {
        (SCALE as int) / n
    } else {
        (SCALE as int) / (n * n)
    }
}

/// The band-limited harmonic stack from harmonic `n` upward: each harmonic
/// `k` (stepping by `step`) contributes `gain(k) * tone(phase, freq * k)`
/// while `freq * k` stays at or below the Nyquist frequency `sr / 2` (in
/// millihertz, `500 * sr`), and the stack is empty from the first harmonic
/// past it.
pub open spec fn spec_harmonic_sum(
    phase: int,
    freq: int,
    sr: int,
    step: int,
    gain_exp: int,
    n: int,
) -> int
    decreases 500 * sr + freq * step - freq * n,
    when freq >= 1 && step >= 1 && n >= 1
    via harmonic_sum_decreases
{
    if freq * n > 500 * sr {
        0
    } else {
        spec_mul_q(spec_harmonic_gain(gain_exp, n), spec_tone(phase, freq * n, sr))
            + spec_harmonic_sum(phase, freq, sr, step, gain_exp, n + step)
    }
}

#[via_fn]
proof fn harmonic_sum_decreases(phase: int, freq: int, sr: int, step: int, gain_exp: int, n: int) {
    assert(freq >= 1 && step >= 1 && freq * n <= 500 * sr ==> 0 <= 500 * sr + freq * step - freq
        * (n + step) < 500 * sr + freq * step - freq * n) by (nonlinear_arith);
}

/// No harmonic at or above the Nyquist frequency enters a band-limited
/// waveform: from the first harmonic `n` with `freq * n` past `sr / 2`, the
/// rest of the stack is exactly zero — the truncation is the construction.
pub proof fn lemma_band_limited(phase: int, freq: int, sr: int, step: int, gain_exp: int, n: int)
    requires
        freq >= 1,
        step >= 1,
        n >= 1,
        freq * n > 500 * sr,
    ensures
        spec_harmonic_sum(phase, freq, sr, step, gain_exp, n) == 0,
{
}

/// Phase fraction of sample `phase` for a tone at `freq` millihertz.
pub(crate) fn phase_frac(phase: u32, freq: u64, sr: u32) -> (r: u32)
    requires
        phase < sr,
        SR_MIN <= sr <= SR_MAX,
        1 <= freq <= 100_000_000,
    ensures
        r == spec_phase_frac(phase as int, freq as int, sr as int),
        r < crate::fixed::PHASE_ONE,
{
    let den: u64 = 1000 * (sr as u64);
    proof {
        assert((phase as int) * (freq as int) <= (SR_MAX as int) * 100_000_000int)
            by (nonlinear_arith)
            requires
                0 <= phase < sr <= SR_MAX,
                0 <= freq <= 100_000_000,
        ;
    }
    let turns: u64 = (phase as u64) * freq;
    let rem: u64 = turns % den;
    let frac: u64 = rem * (crate::fixed::PHASE_ONE as u64) / den;
    proof {
        assert((rem as int) * (crate::fixed::PHASE_ONE as int) < (den as int) * (
        crate::fixed::PHASE_ONE as int)) by (nonlinear_arith)
            requires
                0 <= rem < den,
                crate::fixed::PHASE_ONE > 0,
        ;
        vstd::arithmetic::div_mod::lemma_multiply_divide_lt(
            (rem as int) * (crate::fixed::PHASE_ONE as int),
            den as int,
            crate::fixed::PHASE_ONE as int,
        );
        vstd::arithmetic::div_mod::lemma_div_pos_is_pos(
            (rem as int) * (crate::fixed::PHASE_ONE as int),
            den as int,
        );
    }
    frac as u32
}

/// One pure sine sample, exactly `spec_tone`.
fn tone_sample(phase: u32, freq: u64, sr: u32) -> (r: i64)
    requires
        phase < sr,
        SR_MIN <= sr <= SR_MAX,
        1 <= freq <= 100_000_000,
    ensures
        r == spec_tone(phase as int, freq as int, sr as int),
        -SCALE <= r <= SCALE,
{
    let frac: u32 = phase_frac(phase, freq, sr);
    sine_q(frac)
}

/// The full band-limited harmonic stack of a waveform, exactly
/// `spec_harmonic_sum` from harmonic 1.
fn harmonic_sum(phase: u32, freq: u64, sr: u32, step: u32, gain_exp: u32) -> (r: i64)
    requires
        phase < sr,
        SR_MIN <= sr <= SR_MAX,
        FREQ_MIN <= freq <= FREQ_MAX,
        1 <= step <= 2,
        1 <= gain_exp <= 2,
    ensures
        r == spec_harmonic_sum(
            phase as int,
            freq as int,
            sr as int,
            step as int,
            gain_exp as int,
            1,
        ),
        -OSC_RAW_BOUND <= r <= OSC_RAW_BOUND,
{
    let nyquist: u64 = 500 * (sr as u64);
    let ghost total = spec_harmonic_sum(
        phase as int,
        freq as int,
        sr as int,
        step as int,
        gain_exp as int,
        1,
    );
    let limit: u64 = nyquist / freq;
    let mut acc: i64 = 0;
    let mut n: u64 = 1;
    proof {
        vstd::arithmetic::div_mod::lemma_div_pos_is_pos(nyquist as int, freq as int);
        vstd::arithmetic::div_mod::lemma_div_is_ordered_by_denominator(
            nyquist as int,
            FREQ_MIN as int,
            freq as int,
        );
        vstd::arithmetic::div_mod::lemma_div_is_ordered(
            nyquist as int,
            500 * (SR_MAX as int),
            FREQ_MIN as int,
        );
    }
    while n <= limit
        invariant
            1 <= n <= limit + step,
            phase < sr,
            SR_MIN <= sr <= SR_MAX,
            FREQ_MIN <= freq <= FREQ_MAX,
            1 <= step <= 2,
            1 <= gain_exp <= 2,
            nyquist == 500 * (sr as int),
            limit == (nyquist as int) / (freq as int),
            limit <= 96_000,
            -65536 * (n - 1) <= acc <= 65536 * (n - 1),
            acc + spec_harmonic_sum(
                phase as int,
                freq as int,
                sr as int,
                step as int,
                gain_exp as int,
                n as int,
            ) == total,
        decreases limit + step - n,
    {
        proof {
            // in band: freq * n stays at or below the Nyquist limit
            vstd::arithmetic::div_mod::lemma_fundamental_div_mod(nyquist as int, freq as int);
            vstd::arithmetic::div_mod::lemma_mod_division_less_than_divisor(
                nyquist as int,
                freq as int,
            );
            assert((freq as int) * (n as int) <= nyquist) by (nonlinear_arith)
                requires
                    n <= limit,
                    (freq as int) * (limit as int) <= nyquist,
                    freq >= 1,
            ;
        }
        let gain: i64 = if gain_exp == 1 {
            (SCALE as u64 / n) as i64
        } else {
            proof {
                assert(1 <= (n as int) * (n as int) <= 96_002int * 96_002int) by (nonlinear_arith)
                    requires
                        1 <= n <= 96_002,
                ;
            }
            (SCALE as u64 / (n * n)) as i64
        };
        proof {
            if gain_exp == 1 {
                vstd::arithmetic::div_mod::lemma_multiply_divide_le(
                    SCALE as int,
                    n as int,
                    SCALE as int,
                );
                vstd::arithmetic::div_mod::lemma_div_pos_is_pos(SCALE as int, n as int);
            } else {
                vstd::arithmetic::div_mod::lemma_multiply_divide_le(
                    SCALE as int,
                    (n as int) * (n as int),
                    SCALE as int,
                );
                vstd::arithmetic::div_mod::lemma_div_pos_is_pos(
                    SCALE as int,
                    (n as int) * (n as int),
                );
                assert((n as int) * (n as int) >= 1) by (nonlinear_arith)
                    requires
                        n >= 1,
                ;
            }
        }
        proof {
            assert((freq as int) * (n as int) >= 1) by (nonlinear_arith)
                requires
                    freq >= 1,
                    n >= 1,
            ;
        }
        let tone: i64 = tone_sample(phase, freq * n, sr);
        let term: i64 = mul_q(gain, tone);
        proof {
            crate::fixed::lemma_mul_q_bound(gain as int, tone as int, SCALE as int, SCALE as int);
            vstd::arithmetic::div_mod::lemma_div_by_multiple(SCALE as int, SCALE as int);
            assert(-65536 <= term <= 65536);
            assert(65536 * ((n + step) as int - 1) >= 65536 * (n as int - 1) + 65536)
                by (nonlinear_arith)
                requires
                    step >= 1,
            ;
            assert(65536 * (n as int - 1) <= 65536 * 96_001int) by (nonlinear_arith)
                requires
                    n as int - 1 <= 96_001,
            ;
        }
        acc = acc + term;
        n = n + (step as u64);
    }
    proof {
        // past the limit: the rest of the stack is empty
        if (freq as int) * (n as int) <= nyquist {
            vstd::arithmetic::div_mod::lemma_div_by_multiple(n as int, freq as int);
            assert((freq as int) * (n as int) == (n as int) * (freq as int));
            vstd::arithmetic::div_mod::lemma_div_is_ordered(
                (n as int) * (freq as int),
                nyquist as int,
                freq as int,
            );
        }
        assert(65536 * (n - 1) <= 65536 * 96_001int) by (nonlinear_arith)
            requires
                n - 1 <= 96_001,
        ;
    }
    acc
}

/// A band-limited periodic generator: waveform selector, frequency, phase,
/// volume, one ADSR envelope, and a seeded noise source for each color.
pub struct Oscillator {
    pub sample_rate: u32,
    pub waveform: Waveform,
    pub current_sample_index: u32,
    pub frequency_mhz: u64,
    pub envelope: Envelope,
    pub volume: i64,
    pub modulator_frequency_mhz: u64,
    pub enabled: bool,
    pub white_noise: NoiseGenerator,
    pub pink_noise: NoiseGenerator,
    pub brown_noise: NoiseGenerator,
    pub snare_noise: NoiseGenerator,
}

/// How one `tick` call at absolute time `t` moves a voice from `pre` to
/// `post`: the parameters stay, a disabled voice does not move at all, and
/// an enabled voice advances its phase by one sample and re-times its
/// envelope's activity.
pub open spec fn spec_ticked_voice_ok(pre: Oscillator, post: Oscillator, t: int) -> bool {
    &&& post.waveform == pre.waveform
    &&& post.sample_rate == pre.sample_rate
    &&& post.frequency_mhz == pre.frequency_mhz
    &&& post.modulator_frequency_mhz == pre.modulator_frequency_mhz
    &&& post.volume == pre.volume
    &&& post.enabled == pre.enabled
    &&& !pre.enabled ==> post == pre
    &&& pre.enabled ==> post.current_sample_index == (pre.current_sample_index + 1) % (
    pre.sample_rate as int)
    &&& pre.enabled ==> post.envelope.config() == pre.envelope.config()
        && post.envelope.trigger_time == pre.envelope.trigger_time && post.envelope.is_active
        == pre.envelope.spec_running(t)
}

impl Oscillator {
    /// Sample rate, frequencies, phase, volume and every owned component sit
    /// inside their valid ranges.
    pub open spec fn wf(self) -> bool {
        &&& SR_MIN <= self.sample_rate <= SR_MAX
        &&& self.current_sample_index < self.sample_rate
        &&& FREQ_MIN <= self.frequency_mhz <= FREQ_MAX
        &&& MOD_FREQ_MIN <= self.modulator_frequency_mhz <= FREQ_MAX
        &&& 0 <= self.volume <= SCALE
        &&& self.envelope.wf()
        &&& self.white_noise.wf()
        &&& self.pink_noise.wf()
        &&& self.brown_noise.wf()
        &&& self.snare_noise.wf()
    }

    /// Whether this oscillator's waveform is a deterministic function of its
    /// phase (every shape but the noise colors).
    pub open spec fn spec_deterministic(self) -> bool {
        match self.waveform {
            Waveform::Sine => true,
            Waveform::Square => true,
            Waveform::Saw => true,
            Waveform::Triangle => true,
            Waveform::RingMod => true,
            _ => false,
        }
    }

    /// The raw (pre-envelope, pre-volume) sample of a deterministic waveform
    /// at phase `phase`.
    pub open spec fn spec_raw(self, phase: int) -> int {
        let f = self.frequency_mhz as int;
        let sr = self.sample_rate as int;
        match self.waveform {
            Waveform::Sine => spec_tone(phase, f, sr),
            Waveform::Square => spec_harmonic_sum(phase, f, sr, 2, 1, 1),
            Waveform::Saw => spec_harmonic_sum(phase, f, sr, 1, 1, 1),
            Waveform::Triangle => spec_harmonic_sum(phase, f, sr, 2, 2, 1),
            Waveform::RingMod => spec_mul_q(
                spec_tone(phase, f, sr),
                spec_tone(phase, self.modulator_frequency_mhz as int, sr),
            ),
            _ => 0,
        }
    }

    /// The sample one `tick` call returns for a deterministic waveform at
    /// absolute time `t`: the raw waveform at the advanced phase, scaled by
    /// the envelope amplitude and the volume.
    pub open spec fn spec_tick_sample(self, t: int) -> int {
        spec_mul_q(
            spec_mul_q(
                self.spec_raw((self.current_sample_index + 1) % (self.sample_rate as int)),
                self.envelope.spec_amplitude(t),
            ),
            self.volume as int,
        )
    }

    /// A fresh square-wave oscillator at full volume, its modulator at half
    /// the carrier frequency; the sample rate and frequency are clamped into
    /// their valid ranges.
    pub fn new(sample_rate: u32, frequency_mhz: u64) -> (r: Oscillator)
        ensures
            r.wf(),
            r.waveform == Waveform::Square,
            r.enabled,
            r.volume == SCALE,
            r.current_sample_index == 0,
            !r.envelope.is_active,
            r.sample_rate == crate::fixed::spec_clamp(
                sample_rate as int,
                SR_MIN as int,
                SR_MAX as int,
            ),
            r.frequency_mhz == crate::fixed::spec_clamp(
                frequency_mhz as int,
                FREQ_MIN as int,
                FREQ_MAX as int,
            ),
            r.modulator_frequency_mhz == r.frequency_mhz / 2,
    {
        let sr: u32 = if sample_rate < SR_MIN {
            SR_MIN
        } else if sample_rate > SR_MAX {
            SR_MAX
        } else {
            sample_rate
        };
        let freq: u64 = crate::fixed::clamp_u64(frequency_mhz, FREQ_MIN, FREQ_MAX);
        Oscillator {
            sample_rate: sr,
            waveform: Waveform::Square,
            current_sample_index: 0,
            frequency_mhz: freq,
            envelope: Envelope::new(),
            volume: SCALE,
            modulator_frequency_mhz: freq / 2,
            enabled: true,
            white_noise: NoiseGenerator::new(NoiseType::White, 12345),
            pink_noise: NoiseGenerator::new(NoiseType::Pink, 23456),
            brown_noise: NoiseGenerator::new(NoiseType::Brown, 34567),
            snare_noise: NoiseGenerator::new(NoiseType::Snare, 45678),
        }
    }

    /// Starts the envelope at `time`; nothing else moves.
    pub fn trigger(&mut self, time: u64)
        requires
            old(self).wf(),
        ensures
            final(self).wf(),
            final(self).envelope.is_active,
            final(self).envelope.trigger_time == time,
            final(self).envelope.config() == old(self).envelope.config(),
            final(self).envelope == (Envelope {
                current_time: 0u64,
                is_active: true,
                trigger_time: time,
                ..old(self).envelope
            }),
            *final(self) == (Oscillator { envelope: final(self).envelope, ..*old(self) }),
    {
        self.envelope.trigger(time);
    }

    /// Forwarded to the envelope, whose release tail is part of its
    /// configured shape: the state is unchanged.
    pub fn release(&mut self, time: u64)
        ensures
            *final(self) == *old(self),
    {
        self.envelope.release(time);
    }

    /// Sets the volume, clamped into `[0, SCALE]`.
    pub fn set_volume(&mut self, volume: i64)
        requires
            old(self).wf(),
        ensures
            final(self).wf(),
            final(self).volume == crate::fixed::spec_clamp(volume as int, 0, SCALE as int),
            *final(self) == (Oscillator { volume: final(self).volume, ..*old(self) }),
    {
        self.volume = crate::fixed::clamp_i64(volume, 0, SCALE);
    }

    /// Replaces the envelope settings.
    pub fn set_adsr(&mut self, config: ADSRConfig)
        requires
            old(self).wf(),
            config.wf(),
        ensures
            final(self).wf(),
            final(self).envelope.config() == config,
            final(self).envelope.is_active == old(self).envelope.is_active,
            final(self).envelope.trigger_time == old(self).envelope.trigger_time,
            *final(self) == (Oscillator { envelope: final(self).envelope, ..*old(self) }),
    {
        self.envelope.set_config(config);
    }

    /// Sets the ring-modulator frequency, clamped into its valid range.
    pub fn set_modulator_frequency(&mut self, frequency_mhz: u64)
        requires
            old(self).wf(),
        ensures
            final(self).wf(),
            final(self).modulator_frequency_mhz == crate::fixed::spec_clamp(
                frequency_mhz as int,
                MOD_FREQ_MIN as int,
                FREQ_MAX as int,
            ),
            *final(self) == (Oscillator {
                modulator_frequency_mhz: final(self).modulator_frequency_mhz,
                ..*old(self)
            }),
    {
        self.modulator_frequency_mhz = crate::fixed::clamp_u64(
            frequency_mhz,
            MOD_FREQ_MIN,
            FREQ_MAX,
        );
    }

    /// The ring-modulator frequency, millihertz.
    pub fn get_modulator_frequency(&self) -> (r: u64)
        ensures
            r == self.modulator_frequency_mhz,
    {
        self.modulator_frequency_mhz
    }

    /// Enables or disables the oscillator; a disabled oscillator outputs
    /// silence and does not advance.
    pub fn set_enabled(&mut self, enabled: bool)
        ensures
            *final(self) == (Oscillator { enabled, ..*old(self) }),
    {
        self.enabled = enabled;
    }

    /// Whether the oscillator is enabled.
    pub fn is_enabled(&self) -> (r: bool)
        ensures
            r == self.enabled,
    {
        self.enabled
    }

    /// One output sample at absolute time `current_time`: the raw waveform
    /// at the advanced phase, scaled by the envelope amplitude and the
    /// volume. Disabled: exactly zero, nothing moves. Enabled: the phase
    /// advances by one sample (mod the sample rate) whatever the waveform,
    /// and for every deterministic waveform the result is pinned to
    /// `spec_raw` at the new phase times envelope times volume.
    pub fn tick(&mut self, current_time: u64) -> (r: i64)
        requires
            old(self).wf(),
        ensures
            final(self).wf(),
            spec_ticked_voice_ok(*old(self), *final(self), current_time as int),
            !old(self).enabled ==> r == 0,
            old(self).enabled && old(self).spec_deterministic() ==> r == old(
                self,
            ).spec_tick_sample(current_time as int),
            -OSC_RAW_BOUND <= r <= OSC_RAW_BOUND,
    {
        if !self.enabled {
            return 0;
        }
        let phase: u32 = (self.current_sample_index + 1) % self.sample_rate;
        self.current_sample_index = phase;
        let raw: i64 = match self.waveform {
            Waveform::Sine => tone_sample(phase, self.frequency_mhz, self.sample_rate),
            Waveform::Square => harmonic_sum(phase, self.frequency_mhz, self.sample_rate, 2, 1),
            Waveform::Saw => harmonic_sum(phase, self.frequency_mhz, self.sample_rate, 1, 1),
            Waveform::Triangle => harmonic_sum(phase, self.frequency_mhz, self.sample_rate, 2, 2),
            Waveform::RingMod => {
                let carrier: i64 = tone_sample(phase, self.frequency_mhz, self.sample_rate);
                let modulator: i64 = tone_sample(
                    phase,
                    self.modulator_frequency_mhz,
                    self.sample_rate,
                );
                proof {
                    crate::fixed::lemma_mul_q_bound(
                        carrier as int,
                        modulator as int,
                        SCALE as int,
                        SCALE as int,
                    );
                    vstd::arithmetic::div_mod::lemma_div_by_multiple(SCALE as int, SCALE as int);
                }
                mul_q(carrier, modulator)
            },
            Waveform::WhiteNoise => self.white_noise.generate(),
            Waveform::PinkNoise => self.pink_noise.generate(),
            Waveform::BrownNoise => self.brown_noise.generate(),
            Waveform::SnareNoise => self.snare_noise.generate(),
        };
        proof {
            assert(PINK_OUT_BOUND < OSC_RAW_BOUND);
        }
        let amp: i64 = self.envelope.get_amplitude(current_time);
        let scaled: i64 = mul_q(raw, amp);
        proof {
            crate::fixed::lemma_mul_q_gain(raw as int, amp as int, OSC_RAW_BOUND as int);
        }
        let out: i64 = mul_q(scaled, self.volume);
        proof {
            crate::fixed::lemma_mul_q_gain(scaled as int, self.volume as int, OSC_RAW_BOUND as int);
        }
        out
    }
}

/// A sine tone repeats with a period of `sample_rate / f` samples: for an
/// integer-hertz frequency `f` that divides the sample rate, the sample at
/// phase `(p + sr/f) mod sr` equals the sample at phase `p`.
pub proof fn lemma_sine_periodic(phase: int, f_hz: int, sr: int, k: int)
    requires
        1 <= f_hz,
        1 <= k,
        f_hz * k == sr,
        0 <= phase < sr,
    ensures
        spec_tone((phase + k) % sr, 1000 * f_hz, sr) == spec_tone(phase, 1000 * f_hz, sr),
{
    let freq = 1000 * f_hz;
    let den = 1000 * sr;
    let wrapped = (phase + k) % sr;
    vstd::arithmetic::div_mod::lemma_fundamental_div_mod(phase + k, sr);
    vstd::arithmetic::div_mod::lemma_mod_division_less_than_divisor(phase + k, sr);
    let j = (phase + k) / sr;
    assert(wrapped == phase + k - sr * j);
    assert(wrapped * freq == den * (1 - f_hz * j) + phase * freq) by (nonlinear_arith)
        requires
            wrapped == phase + k - sr * j,
            freq == 1000 * f_hz,
            den == 1000 * sr,
            sr == f_hz * k,
    ;
    vstd::arithmetic::div_mod::lemma_mod_multiples_vanish(1 - f_hz * j, phase * freq, den);
    assert((wrapped * freq) % den == (phase * freq) % den);
}

} // verus!
