//! Resonant biquad-style low-pass and high-pass filters for transient
//! shaping and noise coloring.
//!
//! Coefficients come from the engine sine at the cutoff's phase fraction
//! (the cosine is the sine a quarter cycle on) and the resonance Q;
//! processing is one direct-form difference step in Q16.16, its state
//! registers saturated so that the filters stay total whatever the drive.

use vstd::prelude::*;

use crate::fixed::{clamp_i64, div_t, sine_q, spec_clamp, spec_div_t, spec_sine_q, SCALE};
use crate::oscillator::{FREQ_MAX, FREQ_MIN, SR_MAX, SR_MIN};

verus! {

/// Lowest accepted resonance Q, Q16.16 (0.1).
pub const Q_MIN: i64 = 6_554;

/// Highest accepted resonance Q, Q16.16 (100).
pub const Q_MAX: i64 = 6_553_600;

/// Magnitude bound kept on every filter register and output.
pub const FILTER_BOUND: i64 = 17_179_869_184;

/// Magnitude bound on the feed coefficients of a well-formed filter.
pub const COEFF_BOUND: i64 = 458_752;

/// Phase fraction (one cycle is 65536) of a cutoff frequency under a sample
/// rate, capped at the half cycle.
pub open spec fn spec_cutoff_frac(cutoff_mhz: int, sr: int) -> int {
    let f = cutoff_mhz * 65536 / (1000 * sr);
    if f > 32768 {
        32768
    } else {
        f
    }
}

/// The five normalized biquad coefficients, Q16.16: output is
/// `(b0 x + b1 x1 + b2 x2 - a1 y1 - a2 y2) / a0`.
pub struct BiquadCoeffs {
    pub b0: i64,
    pub b1: i64,
    pub b2: i64,
    pub a0: i64,
    pub a1: i64,
    pub a2: i64,
}

impl BiquadCoeffs {
    /// The feed terms stay small and the leading coefficient positive.
    pub open spec fn wf(self) -> bool {
        &&& SCALE <= self.a0 <= 7 * SCALE
        &&& -COEFF_BOUND <= self.b0 <= COEFF_BOUND
        &&& -COEFF_BOUND <= self.b1 <= COEFF_BOUND
        &&& -COEFF_BOUND <= self.b2 <= COEFF_BOUND
        &&& -COEFF_BOUND <= self.a1 <= COEFF_BOUND
        &&& -COEFF_BOUND <= self.a2 <= COEFF_BOUND
    }
}

/// Sine and cosine (Q16.16) of a phase fraction, the cosine read a quarter
/// cycle further around the circle.
fn sin_cos(frac: u32) -> (r: (i64, i64))
    requires
        frac < 65536,
    ensures
        r.0 == spec_sine_q(frac as int),
        r.1 == spec_sine_q(((frac + 16384) % 65536) as int),
        -SCALE <= r.0 <= SCALE,
        -SCALE <= r.1 <= SCALE,
{
    let s: i64 = sine_q(frac);
    let c: i64 = sine_q((frac + 16384) % 65536);
    (s, c)
}

/// The resonance width term `alpha = sin / (2 q)`, Q16.16, non-negative
/// and at most five units for the accepted Q range.
fn alpha_of(sin_w: i64, q: i64) -> (r: i64)
    requires
        -SCALE <= sin_w <= SCALE,
        Q_MIN <= q <= Q_MAX,
    ensures
        r == spec_div_t(sin_w * (SCALE as int), 2 * q),
        -6 * SCALE <= r <= 6 * SCALE,
{
    proof {
        assert(-65536int * 65536int <= (sin_w as int) * (SCALE as int) <= 65536int * 65536int)
            by (nonlinear_arith)
            requires
                -65536 <= sin_w <= 65536,
                SCALE == 65536,
        ;
        let m = if sin_w >= 0 {
            (sin_w as int) * (SCALE as int)
        } else {
            -((sin_w as int) * (SCALE as int))
        };
        vstd::arithmetic::div_mod::lemma_div_is_ordered(m, 65536int * 65536int, 2 * (q as int));
        vstd::arithmetic::div_mod::lemma_div_is_ordered_by_denominator(
            65536int * 65536int,
            2 * (Q_MIN as int),
            2 * (q as int),
        );
    }
    let num: i64 = sin_w * SCALE;
    div_t(num, 2 * q)
}

/// Low-pass biquad coefficients for a cutoff phase fraction and resonance.
fn lowpass_coeffs(frac: u32, q: i64) -> (r: BiquadCoeffs)
    requires
        frac < 65536,
        Q_MIN <= q <= Q_MAX,
    ensures
        r.wf(),
{
    let (sin_w, cos_w) = sin_cos(frac);
    let alpha: i64 = alpha_of(sin_w, q);
    let alpha_pos: i64 = clamp_i64(alpha, 0, 6 * SCALE);
    BiquadCoeffs {
        b0: (SCALE - cos_w) / 2,
        b1: SCALE - cos_w,
        b2: (SCALE - cos_w) / 2,
        a0: SCALE + alpha_pos,
        a1: -2 * cos_w,
        a2: SCALE - alpha_pos,
    }
}

/// High-pass biquad coefficients for a cutoff phase fraction and resonance.
fn highpass_coeffs(frac: u32, q: i64) -> (r: BiquadCoeffs)
    requires
        frac < 65536,
        Q_MIN <= q <= Q_MAX,
    ensures
        r.wf(),
{
    let (sin_w, cos_w) = sin_cos(frac);
    let alpha: i64 = alpha_of(sin_w, q);
    let alpha_pos: i64 = clamp_i64(alpha, 0, 6 * SCALE);
    BiquadCoeffs {
        b0: (SCALE + cos_w) / 2,
        b1: -(SCALE + cos_w),
        b2: (SCALE + cos_w) / 2,
        a0: SCALE + alpha_pos,
        a1: -2 * cos_w,
        a2: SCALE - alpha_pos,
    }
}

/// One biquad output sample for coefficients `c`, registers
/// `(x1, x2, y1, y2)` and input `x`, saturated into the register bound.
pub open spec fn spec_biquad_out(
    c: BiquadCoeffs,
    x: int,
    x1: int,
    x2: int,
    y1: int,
    y2: int,
) -> int {
    spec_clamp(
        spec_div_t(
            c.b0 * x + c.b1 * x1 + c.b2 * x2 - c.a1 * y1 - c.a2 * y2,
            c.a0 as int,
        ),
        -FILTER_BOUND as int,
        FILTER_BOUND as int,
    )
}

/// One coefficient-times-register product, exact.
fn cmul(c: i64, v: i64) -> (r: i64)
    requires
        -COEFF_BOUND <= c <= COEFF_BOUND,
        -FILTER_BOUND <= v <= FILTER_BOUND,
    ensures
        r == c * v,
        -7_881_299_347_898_368 <= r <= 7_881_299_347_898_368,
{
    proof {
        assert(-7_881_299_347_898_368int <= (c as int) * (v as int) <= 7_881_299_347_898_368int)
            by (nonlinear_arith)
            requires
                -COEFF_BOUND <= c <= COEFF_BOUND,
                -FILTER_BOUND <= v <= FILTER_BOUND,
                COEFF_BOUND == 458_752,
                FILTER_BOUND == 17_179_869_184,
        ;
    }
    c * v
}

/// One difference-equation step shared by both filters: the new output and
/// the shifted registers.
fn biquad_step(c: &BiquadCoeffs, x: i64, x1: i64, x2: i64, y1: i64, y2: i64) -> (r: i64)
    requires
        c.wf(),
        -FILTER_BOUND <= x <= FILTER_BOUND,
        -FILTER_BOUND <= x1 <= FILTER_BOUND,
        -FILTER_BOUND <= x2 <= FILTER_BOUND,
        -FILTER_BOUND <= y1 <= FILTER_BOUND,
        -FILTER_BOUND <= y2 <= FILTER_BOUND,
    ensures
        r == spec_biquad_out(*c, x as int, x1 as int, x2 as int, y1 as int, y2 as int),
        -FILTER_BOUND <= r <= FILTER_BOUND,
{
    let num: i64 = cmul(c.b0, x) + cmul(c.b1, x1) + cmul(c.b2, x2) - cmul(c.a1, y1) - cmul(
        c.a2,
        y2,
    );
    let q: i64 = div_t(num, c.a0);
    clamp_i64(q, -FILTER_BOUND, FILTER_BOUND)
}

/// A resonant low-pass biquad: cutoff (millihertz), resonance Q, and four
/// delay registers.
pub struct ResonantLowpassFilter {
    pub sample_rate: u32,
    pub cutoff_mhz: u64,
    pub resonance: i64,
    pub coeffs: BiquadCoeffs,
    pub x1: i64,
    pub x2: i64,
    pub y1: i64,
    pub y2: i64,
}

impl ResonantLowpassFilter {
    /// Rates and parameters in range, coefficients well formed, registers
    /// inside the saturation bound.
    pub open spec fn wf(self) -> bool {
        &&& SR_MIN <= self.sample_rate <= SR_MAX
        &&& FREQ_MIN <= self.cutoff_mhz <= FREQ_MAX
        &&& Q_MIN <= self.resonance <= Q_MAX
        &&& self.coeffs.wf()
        &&& -FILTER_BOUND <= self.x1 <= FILTER_BOUND
        &&& -FILTER_BOUND <= self.x2 <= FILTER_BOUND
        &&& -FILTER_BOUND <= self.y1 <= FILTER_BOUND
        &&& -FILTER_BOUND <= self.y2 <= FILTER_BOUND
    }

    /// A fresh low-pass at the given cutoff and resonance (both clamped),
    /// registers zeroed.
    pub fn new(sample_rate: u32, cutoff_mhz: u64, resonance: i64) -> (r: ResonantLowpassFilter)
        ensures
            r.wf(),
            r.x1 == 0 && r.x2 == 0 && r.y1 == 0 && r.y2 == 0,
            r.sample_rate == spec_clamp(sample_rate as int, SR_MIN as int, SR_MAX as int),
            r.cutoff_mhz == spec_clamp(cutoff_mhz as int, FREQ_MIN as int, FREQ_MAX as int),
            r.resonance == spec_clamp(resonance as int, Q_MIN as int, Q_MAX as int),
    {
        let sr: u32 = if sample_rate < SR_MIN {
            SR_MIN
        } else if sample_rate > SR_MAX {
            SR_MAX
        } else {
            sample_rate
        };
        let cutoff: u64 = crate::fixed::clamp_u64(cutoff_mhz, FREQ_MIN, FREQ_MAX);
        let q: i64 = clamp_i64(resonance, Q_MIN, Q_MAX);
        let frac: u32 = cutoff_frac(cutoff, sr);
        ResonantLowpassFilter {
            sample_rate: sr,
            cutoff_mhz: cutoff,
            resonance: q,
            coeffs: lowpass_coeffs(frac, q),
            x1: 0,
            x2: 0,
            y1: 0,
            y2: 0,
        }
    }

    /// Moves the cutoff (clamped) and recomputes the coefficients.
    pub fn set_cutoff_freq(&mut self, cutoff_mhz: u64)
        requires
            old(self).wf(),
        ensures
            final(self).wf(),
            final(self).cutoff_mhz == spec_clamp(cutoff_mhz as int, FREQ_MIN as int, FREQ_MAX as int),
            final(self).x1 == old(self).x1 && final(self).x2 == old(self).x2,
            final(self).y1 == old(self).y1 && final(self).y2 == old(self).y2,
            final(self).resonance == old(self).resonance,
            final(self).sample_rate == old(self).sample_rate,
    {
        let cutoff: u64 = crate::fixed::clamp_u64(cutoff_mhz, FREQ_MIN, FREQ_MAX);
        self.cutoff_mhz = cutoff;
        let frac: u32 = cutoff_frac(cutoff, self.sample_rate);
        self.coeffs = lowpass_coeffs(frac, self.resonance);
    }

    /// Moves the resonance (clamped) and recomputes the coefficients.
    pub fn set_resonance(&mut self, resonance: i64)
        requires
            old(self).wf(),
        ensures
            final(self).wf(),
            final(self).resonance == spec_clamp(resonance as int, Q_MIN as int, Q_MAX as int),
            final(self).x1 == old(self).x1 && final(self).x2 == old(self).x2,
            final(self).y1 == old(self).y1 && final(self).y2 == old(self).y2,
            final(self).cutoff_mhz == old(self).cutoff_mhz,
            final(self).sample_rate == old(self).sample_rate,
    {
        let q: i64 = clamp_i64(resonance, Q_MIN, Q_MAX);
        self.resonance = q;
        let frac: u32 = cutoff_frac(self.cutoff_mhz, self.sample_rate);
        self.coeffs = lowpass_coeffs(frac, q);
    }

    /// Zeroes the delay registers, so no state bleeds between hits; runs on
    /// every voice retrigger.
    pub fn reset(&mut self)
        ensures
            final(self).x1 == 0 && final(self).x2 == 0,
            final(self).y1 == 0 && final(self).y2 == 0,
            *final(self) == (ResonantLowpassFilter {
                x1: 0i64,
                x2: 0i64,
                y1: 0i64,
                y2: 0i64,
                ..*old(self)
            }),
    {
        self.x1 = 0;
        self.x2 = 0;
        self.y1 = 0;
        self.y2 = 0;
    }

    /// One filtered sample, exactly the saturated biquad step; the
    /// registers shift by one.
    pub fn process(&mut self, input: i64) -> (r: i64)
        requires
            old(self).wf(),
            -FILTER_BOUND <= input <= FILTER_BOUND,
        ensures
            final(self).wf(),
            r == spec_biquad_out(
                old(self).coeffs,
                input as int,
                old(self).x1 as int,
                old(self).x2 as int,
                old(self).y1 as int,
                old(self).y2 as int,
            ),
            -FILTER_BOUND <= r <= FILTER_BOUND,
            final(self).x1 == input && final(self).x2 == old(self).x1,
            final(self).y1 == r && final(self).y2 == old(self).y1,
            final(self).coeffs == old(self).coeffs,
            final(self).cutoff_mhz == old(self).cutoff_mhz,
            final(self).resonance == old(self).resonance,
            final(self).sample_rate == old(self).sample_rate,
    {
        let y: i64 = biquad_step(&self.coeffs, input, self.x1, self.x2, self.y1, self.y2);
        self.x2 = self.x1;
        self.x1 = input;
        self.y2 = self.y1;
        self.y1 = y;
        y
    }
}

/// A resonant high-pass biquad: cutoff (millihertz), resonance Q, and four
/// delay registers.
pub struct ResonantHighpassFilter {
    pub sample_rate: u32,
    pub cutoff_mhz: u64,
    pub resonance: i64,
    pub coeffs: BiquadCoeffs,
    pub x1: i64,
    pub x2: i64,
    pub y1: i64,
    pub y2: i64,
}

impl ResonantHighpassFilter {
    /// Rates and parameters in range, coefficients well formed, registers
    /// inside the saturation bound.
    pub open spec fn wf(self) -> bool {
        &&& SR_MIN <= self.sample_rate <= SR_MAX
        &&& FREQ_MIN <= self.cutoff_mhz <= FREQ_MAX
        &&& Q_MIN <= self.resonance <= Q_MAX
        &&& self.coeffs.wf()
        &&& -FILTER_BOUND <= self.x1 <= FILTER_BOUND
        &&& -FILTER_BOUND <= self.x2 <= FILTER_BOUND
        &&& -FILTER_BOUND <= self.y1 <= FILTER_BOUND
        &&& -FILTER_BOUND <= self.y2 <= FILTER_BOUND
    }

    /// A fresh high-pass at the given cutoff and resonance (both clamped),
    /// registers zeroed.
    pub fn new(sample_rate: u32, cutoff_mhz: u64, resonance: i64) -> (r: ResonantHighpassFilter)
        ensures
            r.wf(),
            r.x1 == 0 && r.x2 == 0 && r.y1 == 0 && r.y2 == 0,
            r.sample_rate == spec_clamp(sample_rate as int, SR_MIN as int, SR_MAX as int),
            r.cutoff_mhz == spec_clamp(cutoff_mhz as int, FREQ_MIN as int, FREQ_MAX as int),
            r.resonance == spec_clamp(resonance as int, Q_MIN as int, Q_MAX as int),
    {
        let sr: u32 = if sample_rate < SR_MIN {
            SR_MIN
        } else if sample_rate > SR_MAX {
            SR_MAX
        } else {
            sample_rate
        };
        let cutoff: u64 = crate::fixed::clamp_u64(cutoff_mhz, FREQ_MIN, FREQ_MAX);
        let q: i64 = clamp_i64(resonance, Q_MIN, Q_MAX);
        let frac: u32 = cutoff_frac(cutoff, sr);
        ResonantHighpassFilter {
            sample_rate: sr,
            cutoff_mhz: cutoff,
            resonance: q,
            coeffs: highpass_coeffs(frac, q),
            x1: 0,
            x2: 0,
            y1: 0,
            y2: 0,
        }
    }

    /// Moves the cutoff (clamped) and recomputes the coefficients.
    pub fn set_cutoff_freq(&mut self, cutoff_mhz: u64)
        requires
            old(self).wf(),
        ensures
            final(self).wf(),
            final(self).cutoff_mhz == spec_clamp(cutoff_mhz as int, FREQ_MIN as int, FREQ_MAX as int),
            final(self).x1 == old(self).x1 && final(self).x2 == old(self).x2,
            final(self).y1 == old(self).y1 && final(self).y2 == old(self).y2,
            final(self).resonance == old(self).resonance,
            final(self).sample_rate == old(self).sample_rate,
    {
        let cutoff: u64 = crate::fixed::clamp_u64(cutoff_mhz, FREQ_MIN, FREQ_MAX);
        self.cutoff_mhz = cutoff;
        let frac: u32 = cutoff_frac(cutoff, self.sample_rate);
        self.coeffs = highpass_coeffs(frac, self.resonance);
    }

    /// Moves the resonance (clamped) and recomputes the coefficients.
    pub fn set_resonance(&mut self, resonance: i64)
        requires
            old(self).wf(),
        ensures
            final(self).wf(),
            final(self).resonance == spec_clamp(resonance as int, Q_MIN as int, Q_MAX as int),
            final(self).x1 == old(self).x1 && final(self).x2 == old(self).x2,
            final(self).y1 == old(self).y1 && final(self).y2 == old(self).y2,
            final(self).cutoff_mhz == old(self).cutoff_mhz,
            final(self).sample_rate == old(self).sample_rate,
    {
        let q: i64 = clamp_i64(resonance, Q_MIN, Q_MAX);
        self.resonance = q;
        let frac: u32 = cutoff_frac(self.cutoff_mhz, self.sample_rate);
        self.coeffs = highpass_coeffs(frac, q);
    }

    /// Zeroes the delay registers, so no state bleeds between hits; runs on
    /// every voice retrigger.
    pub fn reset(&mut self)
        ensures
            final(self).x1 == 0 && final(self).x2 == 0,
            final(self).y1 == 0 && final(self).y2 == 0,
            *final(self) == (ResonantHighpassFilter {
                x1: 0i64,
                x2: 0i64,
                y1: 0i64,
                y2: 0i64,
                ..*old(self)
            }),
    {
        self.x1 = 0;
        self.x2 = 0;
        self.y1 = 0;
        self.y2 = 0;
    }

    /// One filtered sample, exactly the saturated biquad step; the
    /// registers shift by one.
    pub fn process(&mut self, input: i64) -> (r: i64)
        requires
            old(self).wf(),
            -FILTER_BOUND <= input <= FILTER_BOUND,
        ensures
            final(self).wf(),
            r == spec_biquad_out(
                old(self).coeffs,
                input as int,
                old(self).x1 as int,
                old(self).x2 as int,
                old(self).y1 as int,
                old(self).y2 as int,
            ),
            -FILTER_BOUND <= r <= FILTER_BOUND,
            final(self).x1 == input && final(self).x2 == old(self).x1,
            final(self).y1 == r && final(self).y2 == old(self).y1,
            final(self).coeffs == old(self).coeffs,
            final(self).cutoff_mhz == old(self).cutoff_mhz,
            final(self).resonance == old(self).resonance,
            final(self).sample_rate == old(self).sample_rate,
    {
        let y: i64 = biquad_step(&self.coeffs, input, self.x1, self.x2, self.y1, self.y2);
        self.x2 = self.x1;
        self.x1 = input;
        self.y2 = self.y1;
        self.y1 = y;
        y
    }
}

/// Phase fraction of a cutoff under a sample rate, exactly
/// `spec_cutoff_frac`.
fn cutoff_frac(cutoff_mhz: u64, sr: u32) -> (r: u32)
    requires
        FREQ_MIN <= cutoff_mhz <= FREQ_MAX,
        SR_MIN <= sr <= SR_MAX,
    ensures
        r == spec_cutoff_frac(cutoff_mhz as int, sr as int),
        r <= 32768,
{
    let den: u64 = 1000 * (sr as u64);
    let f: u64 = cutoff_mhz * 65536 / den;
    proof {
        vstd::arithmetic::div_mod::lemma_div_pos_is_pos((cutoff_mhz as int) * 65536, den as int);
    }
    if f > 32768 {
        32768
    } else {
        f as u32
    }
}

} // verus!
