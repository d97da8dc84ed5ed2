//! Dynamic-range compressor: instantaneous magnitude to decibels, an
//! asymmetric one-pole envelope follower with separate attack and release
//! coefficients, gain reduction above a threshold at `ratio : 1`, fixed
//! makeup gain, and back to linear.
//!
//! Decibel values are Q16.16 (one dB is `SCALE`); the conversions run
//! through the crate's fixed-point base-2 logarithm and power, so every
//! stage is an exact integer function stated by its spec twin. Disabled,
//! the compressor is the identity.

use vstd::prelude::*;

use crate::fixed::{
    log2_q16, mul_q, pow2_q16, spec_log2_q16, spec_mul_q, spec_pow2_q16, Q_LIMIT, SCALE,
};
use crate::oscillator::{SR_MAX, SR_MIN};

verus! {

/// `20 * log10(2)` in Q16.16: decibels per factor of two.
pub const DB_PER_OCTAVE: i64 = 394_566;

/// Decibel value assigned to near-silence (−120 dB, Q16.16).
pub const DB_FLOOR: i64 = -7_864_320;

/// Largest decibel magnitude the engine forms or accepts (about 145 dB).
pub const DB_LIMIT: i64 = 9_500_000;

/// Longest accepted attack or release time, microseconds (one day), far
/// inside what the coefficient arithmetic can hold without overflow.
pub const MAX_TIME_US: u64 = 86_400_000_000;

/// `log2(e) * 1_000_000` in Q16.16, used to turn a time constant into a
/// one-pole coefficient `2^(-log2(e) * 1e6 / (t_us * sr))`.
pub const LOG2E_E6: u64 = 94_548_700_000;

/// One-pole coefficient of a time constant under a sample rate:
/// `2^(-log2(e) * 1e6 / (t_us * sr))` in Q16.16, the exponent capped so it
/// stays representable (the cap only matters where the coefficient is
/// already zero).
pub open spec fn spec_time_coeff(time_us: int, sr: int) -> int {
    let raw = (LOG2E_E6 as int) / (time_us * sr);
    let e = if raw > 4_294_967_296 {
        4_294_967_296int
    } else {
        raw
    };
    crate::fixed::spec_pow2_q16(-e)
}

/// Decibel level of a linear magnitude (`mag >= 1`, Q16.16 linear):
/// `(log2(mag) - log2(SCALE)) * DB_PER_OCTAVE`, Q16.16 decibels.
pub open spec fn spec_lin_to_db(mag: int) -> int {
    spec_mul_q(spec_log2_q16(mag) - 1_048_576, DB_PER_OCTAVE as int)
}

/// Exponent in base-2 Q16.16 of a decibel value, rounded toward zero.
pub open spec fn spec_db_exp(db: int) -> int {
    if db >= 0 {
        db * (SCALE as int) / (DB_PER_OCTAVE as int)
    } else {
        -((-db) * (SCALE as int) / (DB_PER_OCTAVE as int))
    }
}

/// Linear gain of a decibel value: `2^(db / DB_PER_OCTAVE)` in Q16.16.
pub open spec fn spec_db_to_lin(db: int) -> int {
    spec_pow2_q16(spec_db_exp(db))
}

/// Exec twin of `spec_lin_to_db`.
fn lin_to_db(mag: u64) -> (r: i64)
    requires
        1 <= mag <= Q_LIMIT,
    ensures
        r == spec_lin_to_db(mag as int),
        -DB_LIMIT <= r <= DB_LIMIT,
{
    let lg: i64 = log2_q16(mag);
    let r: i64 = mul_q(lg - 1_048_576, DB_PER_OCTAVE);
    proof {
        crate::fixed::lemma_mul_q_bound(
            lg - 1_048_576,
            DB_PER_OCTAVE as int,
            1_572_864,
            DB_PER_OCTAVE as int,
        );
    }
    r
}

/// Exec twin of `spec_db_exp`; the magnitude never grows, since one
/// decibel spans fewer than `SCALE` exponent units.
fn db_exp(db: i64) -> (r: i64)
    requires
        -100_000_000 <= db <= 100_000_000,
    ensures
        r == spec_db_exp(db as int),
        -100_000_000 <= r <= 100_000_000,
        db >= 0 ==> 0 <= r <= db,
        db <= 0 ==> db <= r <= 0,
{
    proof {
        let m = if db >= 0 {
            db as int
        } else {
            -(db as int)
        };
        assert(m * (SCALE as int) <= m * (DB_PER_OCTAVE as int)) by (nonlinear_arith)
            requires
                m >= 0,
                0 < SCALE <= DB_PER_OCTAVE,
        ;
        vstd::arithmetic::div_mod::lemma_multiply_divide_le(
            m * (SCALE as int),
            DB_PER_OCTAVE as int,
            m,
        );
        vstd::arithmetic::div_mod::lemma_div_pos_is_pos(m * (SCALE as int), DB_PER_OCTAVE as int);
        assert(m * (SCALE as int) <= 100_000_000int * 65_536int) by (nonlinear_arith)
            requires
                0 <= m <= 100_000_000,
                SCALE == 65536,
        ;
    }
    if db >= 0 {
        let num: u64 = (db as u64) * (SCALE as u64);
        (num / (DB_PER_OCTAVE as u64)) as i64
    } else {
        let num: u64 = ((-db) as u64) * (SCALE as u64);
        -((num / (DB_PER_OCTAVE as u64)) as i64)
    }
}

/// Exec twin of `spec_db_to_lin`.
fn db_to_lin(db: i64) -> (r: i64)
    requires
        -100_000_000 <= db <= 100_000_000,
    ensures
        r == spec_db_to_lin(db as int),
        0 <= r <= Q_LIMIT,
        db <= 0 ==> r <= SCALE,
{
    let e: i64 = db_exp(db);
    pow2_q16(e)
}

/// A dynamic-range compressor. Thresholds and gains are Q16.16 decibels,
/// the ratio and the follower coefficients Q16.16 plain numbers, times
/// microseconds.
pub struct Compressor {
    pub enabled: bool,
    pub threshold: i64,
    pub ratio: i64,
    pub attack_coeff: i64,
    pub release_coeff: i64,
    pub makeup_gain_db: i64,
    pub envelope_follower: i64,
    pub sample_rate: u32,
    pub attack_us: u64,
    pub release_us: u64,
}

impl Compressor {
    /// Ratio at least one, coefficients at most one, every decibel value
    /// inside `[-DB_LIMIT, DB_LIMIT]`.
    pub open spec fn wf(self) -> bool {
        &&& SR_MIN <= self.sample_rate <= SR_MAX
        &&& SCALE <= self.ratio <= 100 * SCALE
        &&& 0 <= self.attack_coeff <= SCALE
        &&& 0 <= self.release_coeff <= SCALE
        &&& -DB_LIMIT <= self.threshold <= DB_LIMIT
        &&& -DB_LIMIT <= self.makeup_gain_db <= DB_LIMIT
        &&& -DB_LIMIT <= self.envelope_follower <= DB_LIMIT
        &&& 1 <= self.attack_us <= MAX_TIME_US
        &&& 1 <= self.release_us <= MAX_TIME_US
    }

    /// Decibel level fed to the follower: the magnitude in decibels, or the
    /// floor for near-silence.
    pub open spec fn spec_input_db(mag: int) -> int {
        if mag >= 1 {
            spec_lin_to_db(mag)
        } else {
            DB_FLOOR as int
        }
    }

    /// Next follower level: one-pole motion toward `target`, under the
    /// attack coefficient when rising and the release coefficient when
    /// falling.
    pub open spec fn spec_follower_next(self, target: int) -> int {
        let coeff = if target > self.envelope_follower {
            self.attack_coeff
        } else {
            self.release_coeff
        };
        target + spec_mul_q(self.envelope_follower - target, coeff as int)
    }

    /// Gain reduction in decibels at follower level `ef`:
    /// `(ef - threshold) * (1 - 1/ratio)` above the threshold, zero below.
    pub open spec fn spec_gain_reduction(self, ef: int) -> int {
        if ef > self.threshold {
            spec_mul_q(
                ef - self.threshold,
                (SCALE as int) - (SCALE as int) * (SCALE as int) / (self.ratio as int),
            )
        } else {
            0
        }
    }

    /// The output sample for input `x` once the follower sits at `ef`:
    /// `x * lin(makeup - reduction(ef))`.
    pub open spec fn spec_output(self, x: int, ef: int) -> int {
        spec_mul_q(x, spec_db_to_lin(self.makeup_gain_db - self.spec_gain_reduction(ef)))
    }

    /// The result of one `process` call: the input itself when disabled,
    /// else the output at the advanced follower level.
    pub open spec fn spec_process(self, x: int) -> int {
        if !self.enabled {
            x
        } else {
            let mag = if x >= 0 {
                x
            } else {
                -x
            };
            self.spec_output(x, self.spec_follower_next(Self::spec_input_db(mag)))
        }
    }

    /// A fresh, disabled compressor: −12 dB threshold, 4:1 ratio, no makeup
    /// gain, 3 ms attack, 100 ms release.
    pub fn new(sample_rate: u32) -> (r: Compressor)
        ensures
            r.wf(),
            !r.enabled,
            r.threshold == -786_432,
            r.ratio == 4 * SCALE,
            r.makeup_gain_db == 0,
            r.envelope_follower == 0,
            r.attack_us == 3_000,
            r.release_us == 100_000,
            r.attack_coeff == spec_time_coeff(3_000, r.sample_rate as int),
            r.release_coeff == spec_time_coeff(100_000, r.sample_rate as int),
    {
        let sr: u32 = if sample_rate < SR_MIN {
            SR_MIN
        } else if sample_rate > SR_MAX {
            SR_MAX
        } else {
            sample_rate
        };
        let mut compressor = Compressor {
            enabled: false,
            threshold: -786_432,
            ratio: 4 * SCALE,
            attack_coeff: 0,
            release_coeff: 0,
            makeup_gain_db: 0,
            envelope_follower: 0,
            sample_rate: sr,
            attack_us: 1,
            release_us: 1,
        };
        compressor.set_attack(3_000);
        compressor.set_release(100_000);
        compressor
    }

    /// One-pole coefficient for a time constant: `2^(-log2(e) / (t_s * sr))`
    /// in Q16.16, always at most one.
    fn time_coeff(time_us: u64, sample_rate: u32) -> (r: i64)
        requires
            1 <= time_us <= MAX_TIME_US,
            SR_MIN <= sample_rate <= SR_MAX,
        ensures
            r == spec_time_coeff(time_us as int, sample_rate as int),
            0 <= r <= SCALE,
    {
        proof {
            assert((time_us as int) * (sample_rate as int) >= 8000) by (nonlinear_arith)
                requires
                    time_us >= 1,
                    sample_rate >= 8000,
            ;
            assert((time_us as int) * (sample_rate as int) <= 86_400_000_000int * 192_000int)
                by (nonlinear_arith)
                requires
                    1 <= time_us <= 86_400_000_000,
                    sample_rate <= 192_000,
            ;
        }
        let samples: u64 = time_us * (sample_rate as u64);
        let raw: u64 = LOG2E_E6 / samples;
        proof {
            vstd::arithmetic::div_mod::lemma_div_pos_is_pos(LOG2E_E6 as int, samples as int);
        }
        let e: u64 = if raw > 4_294_967_296 {
            4_294_967_296
        } else {
            raw
        };
        pow2_q16(-(e as i64))
    }

    /// Sets the attack time (microseconds, clamped) and recomputes the
    /// attack coefficient.
    pub fn set_attack(&mut self, attack_us: u64)
        requires
            SR_MIN <= old(self).sample_rate <= SR_MAX,
        ensures
            final(self).attack_us == crate::fixed::spec_clamp(attack_us as int, 1, MAX_TIME_US as int),
            final(self).attack_coeff == spec_time_coeff(
                final(self).attack_us as int,
                old(self).sample_rate as int,
            ),
            0 <= final(self).attack_coeff <= SCALE,
            *final(self) == (Compressor {
                attack_us: final(self).attack_us,
                attack_coeff: final(self).attack_coeff,
                ..*old(self)
            }),
    {
        let t: u64 = crate::fixed::clamp_u64(attack_us, 1, MAX_TIME_US);
        self.attack_us = t;
        self.attack_coeff = Self::time_coeff(t, self.sample_rate);
    }

    /// The attack time, microseconds.
    pub fn get_attack(&self) -> (r: u64)
        ensures
            r == self.attack_us,
    {
        self.attack_us
    }

    /// The release time, microseconds.
    pub fn get_release(&self) -> (r: u64)
        ensures
            r == self.release_us,
    {
        self.release_us
    }

    /// Sets the release time (microseconds, clamped) and recomputes the
    /// release coefficient.
    pub fn set_release(&mut self, release_us: u64)
        requires
            SR_MIN <= old(self).sample_rate <= SR_MAX,
        ensures
            final(self).release_us == crate::fixed::spec_clamp(
                release_us as int,
                1,
                MAX_TIME_US as int,
            ),
            final(self).release_coeff == spec_time_coeff(
                final(self).release_us as int,
                old(self).sample_rate as int,
            ),
            0 <= final(self).release_coeff <= SCALE,
            *final(self) == (Compressor {
                release_us: final(self).release_us,
                release_coeff: final(self).release_coeff,
                ..*old(self)
            }),
    {
        let t: u64 = crate::fixed::clamp_u64(release_us, 1, MAX_TIME_US);
        self.release_us = t;
        self.release_coeff = Self::time_coeff(t, self.sample_rate);
    }

    /// One compressed sample, exactly `spec_process`; the follower advances
    /// only while enabled, and nothing else moves.
    pub fn process(&mut self, input: i64) -> (r: i64)
        requires
            old(self).wf(),
            -Q_LIMIT <= input <= Q_LIMIT,
        ensures
            final(self).wf(),
            r == old(self).spec_process(input as int),
            *final(self) == (Compressor {
                envelope_follower: final(self).envelope_follower,
                ..*old(self)
            }),
            old(self).enabled ==> final(self).envelope_follower == old(self).spec_follower_next(
                Compressor::spec_input_db(if input >= 0 { input as int } else { -(input as int) }),
            ),
            !old(self).enabled ==> *final(self) == *old(self),
    {
        if !self.enabled {
            return input;
        }
        let mag: u64 = if input >= 0 {
            input as u64
        } else {
            (-input) as u64
        };
        let target: i64 = if mag >= 1 {
            lin_to_db(mag)
        } else {
            DB_FLOOR
        };
        let coeff: i64 = if target > self.envelope_follower {
            self.attack_coeff
        } else {
            self.release_coeff
        };
        let delta: i64 = mul_q(self.envelope_follower - target, coeff);
        proof {
            crate::fixed::lemma_mul_q_contract(
                self.envelope_follower - target,
                coeff as int,
            );
        }
        let ef: i64 = target + delta;
        self.envelope_follower = ef;
        let reduction: i64 = if ef > self.threshold {
            let inv_ratio: i64 = ((SCALE as u64) * (SCALE as u64) / (self.ratio as u64)) as i64;
            proof {
                vstd::arithmetic::div_mod::lemma_multiply_divide_le(
                    (SCALE as int) * (SCALE as int),
                    self.ratio as int,
                    SCALE as int,
                );
                assert((SCALE as int) * (SCALE as int) <= (self.ratio as int) * (SCALE as int))
                    by (nonlinear_arith)
                    requires
                        SCALE <= self.ratio,
                        SCALE > 0,
                ;
                vstd::arithmetic::div_mod::lemma_div_pos_is_pos(
                    (SCALE as int) * (SCALE as int),
                    self.ratio as int,
                );
            }
            let one_minus: i64 = SCALE - inv_ratio;
            let red: i64 = mul_q(ef - self.threshold, one_minus);
            proof {
                crate::fixed::lemma_mul_q_contract(ef - self.threshold, one_minus as int);
            }
            red
        } else {
            0
        };
        let total_db: i64 = self.makeup_gain_db - reduction;
        let gain: i64 = db_to_lin(total_db);
        mul_q(input, gain)
    }
}

/// A compressor at ratio 1:1 is transparent up to its makeup gain: whatever
/// the input and the follower state, the output is the input scaled by the
/// makeup gain alone, and with zero makeup gain it is the input exactly.
pub proof fn lemma_unit_ratio_transparent(c: Compressor, input: int)
    requires
        c.wf(),
        c.enabled,
        c.ratio == SCALE,
    ensures
        c.spec_process(input) == spec_mul_q(input, spec_db_to_lin(c.makeup_gain_db as int)),
        c.makeup_gain_db == 0 ==> c.spec_process(input) == input,
{
    let mag = if input >= 0 {
        input
    } else {
        -input
    };
    let ef = c.spec_follower_next(Compressor::spec_input_db(mag));
    assert((SCALE as int) * (SCALE as int) / (SCALE as int) == SCALE as int) by {
        vstd::arithmetic::div_mod::lemma_div_by_multiple(SCALE as int, SCALE as int);
    }
    if ef > c.threshold {
        assert((ef - c.threshold) * 0 == 0) by (nonlinear_arith);
        vstd::arithmetic::div_mod::lemma_div_of0(SCALE as int);
        assert(c.spec_gain_reduction(ef) == 0);
    }
    if c.makeup_gain_db == 0 {
        vstd::arithmetic::div_mod::lemma_div_of0(DB_PER_OCTAVE as int);
        assert(spec_db_exp(0) == 0);
        vstd::arithmetic::div_mod::lemma_div_of0(SCALE as int);
        vstd::arithmetic::power2::lemma2_to64();
        assert((SCALE as int) + 0 == SCALE as int);
        assert(((SCALE as int) + 0) * (vstd::arithmetic::power2::pow2(0) as int) == SCALE as int)
            by (nonlinear_arith)
            requires
                vstd::arithmetic::power2::pow2(0) == 1,
        ;
        assert(spec_pow2_q16(0) == SCALE as int);
        crate::fixed::lemma_mul_q_identity(input);
    }
}

} // verus!
