//! Stochastic sources: white, pink, brown and snare-colored noise, and a
//! mixer that blends a noise color into a carrier signal.
//!
//! The raw randomness comes from a seeded `rand_pcg::Pcg64` behind trusted
//! wrappers; everything a sample's value depends on beyond the raw draw is
//! verified. Nothing is assumed about a draw, so every bound proved here
//! holds for every possible random sequence.

use vstd::prelude::*;

use crate::fixed::{clamp_i64, mul_q, spec_clamp, spec_mul_q, SCALE};

verus! {

/// Declares rand_pcg's PCG-64 generator state (`rand_pcg::Pcg64` is an alias
/// for it) so that it can be held in a field; the value is opaque here.
#[verifier::external_type_specification]
#[verifier::external_body]
pub struct ExLcg128Xsl64(rand_pcg::Lcg128Xsl64);

/// Relies on `rand::SeedableRng::seed_from_u64` for `rand_pcg::Pcg64`:
/// builds a generator state from a 64-bit seed. Nothing about the state is
/// assumed.
#[verifier::external_body]
fn pcg_from_seed(seed: u64) -> rand_pcg::Pcg64 {
    <rand_pcg::Pcg64 as rand::SeedableRng>::seed_from_u64(seed)
}

/// Relies on `rand::RngCore::next_u32` for `rand_pcg::Pcg64`: one
/// pseudo-random draw, advancing the generator. Nothing is promised of the
/// value, so callers hold for every outcome.
#[verifier::external_body]
fn pcg_next_u32(rng: &mut rand_pcg::Pcg64) -> u32 {
    rand::RngCore::next_u32(rng)
}

/// The four noise colors.
#[derive(Debug, Clone, Copy, PartialEq, Eq, Structural)]
pub enum NoiseType {
    White,
    Pink,
    Brown,
    Snare,
}

/// Magnitude bound kept on each pink-noise integrator register.
pub const PINK_BOUND: i64 = 4_194_304;

/// Magnitude bound on one pink-noise output sample (the five integrators
/// plus the direct white term, scaled by the output gain).
pub const PINK_OUT_BOUND: i64 = 2_359_296;

/// Magnitude bound kept on the snare high-pass feedback register.
pub const SNARE_Y_BOUND: i64 = 524_288;

/// Decay coefficients of the five pink-noise leaky integrators, Q16.16.
pub const PINK_DECAY0: i64 = 65_461;

pub const PINK_DECAY1: i64 = 65_098;

pub const PINK_DECAY2: i64 = 63_504;

pub const PINK_DECAY3: i64 = 56_788;

pub const PINK_DECAY4: i64 = 36_045;

/// Input gains of the five pink-noise leaky integrators, Q16.16.
pub const PINK_GAIN0: i64 = 3_639;

pub const PINK_GAIN1: i64 = 4_920;

pub const PINK_GAIN2: i64 = 10_084;

pub const PINK_GAIN3: i64 = 20_348;

pub const PINK_GAIN4: i64 = 34_928;

/// Gain of the direct white term in the pink-noise sum, Q16.16.
pub const PINK_GAIN_WHITE: i64 = 7_597;

/// Output gain that scales the pink-noise sum toward unit range, Q16.16.
pub const PINK_OUT_GAIN: i64 = 7_209;

/// Step gain of the brown-noise random walk, Q16.16 (about 0.02).
pub const BROWN_STEP_GAIN: i64 = 1_311;

/// Coefficient of the snare-noise one-pole high-pass, Q16.16 (about 0.8).
pub const HP_COEFF: i64 = 52_428;

/// A seeded stochastic source of one noise color, with the recursive filter
/// state that color needs: leaky integrators for pink, the last value for
/// brown, high-pass registers for snare.
pub struct NoiseGenerator {
    noise_type: NoiseType,
    rng: rand_pcg::Pcg64,
    pink_state: [i64; 5],
    pink_running_sum: i64,
    brown_last_value: i64,
    hp_x1: i64,
    hp_y1: i64,
}

impl NoiseGenerator {
    /// Every filter register sits inside the bound its update preserves.
    pub closed spec fn wf(self) -> bool {
        &&& forall|i: int|
            0 <= i < 5 ==> -PINK_BOUND <= #[trigger] self.pink_state@[i] <= PINK_BOUND
        &&& -SCALE <= self.brown_last_value <= SCALE
        &&& -SCALE <= self.hp_x1 <= SCALE
        &&& -SNARE_Y_BOUND <= self.hp_y1 <= SNARE_Y_BOUND
    }

    /// The color this generator produces.
    pub closed spec fn spec_noise_type(self) -> NoiseType {
        self.noise_type
    }

    /// The last value of the brown-noise random walk.
    pub closed spec fn spec_brown_last(self) -> i64 {
        self.brown_last_value
    }

    /// The input register of the snare high-pass.
    pub closed spec fn spec_hp_x1(self) -> i64 {
        self.hp_x1
    }

    /// The feedback register of the snare high-pass.
    pub closed spec fn spec_hp_y1(self) -> i64 {
        self.hp_y1
    }

    /// A fresh generator of the given color, seeded deterministically; all
    /// filter state starts at zero.
    pub fn new(noise_type: NoiseType, seed: u64) -> (r: NoiseGenerator)
        ensures
            r.wf(),
            r.spec_noise_type() == noise_type,
    {
        NoiseGenerator {
            noise_type,
            rng: pcg_from_seed(seed),
            pink_state: [0, 0, 0, 0, 0],
            pink_running_sum: 0,
            brown_last_value: 0,
            hp_x1: 0,
            hp_y1: 0,
        }
    }

    /// One uniform pseudo-random sample in `[-SCALE, SCALE]`.
    fn white_noise(&mut self) -> (r: i64)
        ensures
            -SCALE <= r <= SCALE,
            final(self).noise_type == old(self).noise_type,
            final(self).pink_state == old(self).pink_state,
            final(self).pink_running_sum == old(self).pink_running_sum,
            final(self).brown_last_value == old(self).brown_last_value,
            final(self).hp_x1 == old(self).hp_x1,
            final(self).hp_y1 == old(self).hp_y1,
    {
        let draw: u32 = pcg_next_u32(&mut self.rng);
        let span: i64 = 2 * SCALE + 1;
        let r: i64 = (draw as i64) % span - SCALE;
        r
    }

    /// One pink sample: five leaky integrators of white noise plus a direct
    /// white term, scaled toward unit range.
    fn pink_noise(&mut self) -> (r: i64)
        requires
            old(self).wf(),
        ensures
            final(self).wf(),
            final(self).noise_type == old(self).noise_type,
            final(self).brown_last_value == old(self).brown_last_value,
            final(self).hp_x1 == old(self).hp_x1,
            final(self).hp_y1 == old(self).hp_y1,
            -PINK_OUT_BOUND <= r <= PINK_OUT_BOUND,
    {
        let white: i64 = self.white_noise();
        let p0: i64 = pink_stage(PINK_DECAY0, self.pink_state[0], white, PINK_GAIN0);
        let p1: i64 = pink_stage(PINK_DECAY1, self.pink_state[1], white, PINK_GAIN1);
        let p2: i64 = pink_stage(PINK_DECAY2, self.pink_state[2], white, PINK_GAIN2);
        let p3: i64 = pink_stage(PINK_DECAY3, self.pink_state[3], white, PINK_GAIN3);
        let p4: i64 = pink_stage(PINK_DECAY4, self.pink_state[4], white, PINK_GAIN4);
        self.pink_state = [p0, p1, p2, p3, p4];
        let direct: i64 = mul_q(white, PINK_GAIN_WHITE);
        proof {
            crate::fixed::lemma_mul_q_gain(white as int, PINK_GAIN_WHITE as int, SCALE as int);
        }
        let sum: i64 = p0 + p1 + p2 + p3 + p4 + direct;
        self.pink_running_sum = sum;
        let out: i64 = mul_q(sum, PINK_OUT_GAIN);
        proof {
            crate::fixed::lemma_mul_q_bound(
                sum as int,
                PINK_OUT_GAIN as int,
                (5 * PINK_BOUND + SCALE) as int,
                PINK_OUT_GAIN as int,
            );
        }
        out
    }

    /// One brown sample: a bounded random walk, clamped to `[-SCALE, SCALE]`.
    fn brown_noise(&mut self) -> (r: i64)
        requires
            old(self).wf(),
        ensures
            final(self).wf(),
            final(self).noise_type == old(self).noise_type,
            final(self).pink_state == old(self).pink_state,
            final(self).pink_running_sum == old(self).pink_running_sum,
            final(self).hp_x1 == old(self).hp_x1,
            final(self).hp_y1 == old(self).hp_y1,
            -SCALE <= r <= SCALE,
            r == final(self).brown_last_value,
            r - old(self).brown_last_value <= BROWN_STEP_GAIN,
            old(self).brown_last_value - r <= BROWN_STEP_GAIN,
    {
        let white: i64 = self.white_noise();
        let step: i64 = mul_q(white, BROWN_STEP_GAIN);
        proof {
            crate::fixed::lemma_mul_q_bound(
                white as int,
                BROWN_STEP_GAIN as int,
                SCALE as int,
                BROWN_STEP_GAIN as int,
            );
            assert((SCALE as int) * (BROWN_STEP_GAIN as int) == (BROWN_STEP_GAIN as int) * (
            SCALE as int)) by (nonlinear_arith);
            vstd::arithmetic::div_mod::lemma_div_by_multiple(
                BROWN_STEP_GAIN as int,
                SCALE as int,
            );
        }
        let walked: i64 = clamp_i64(self.brown_last_value + step, -SCALE, SCALE);
        self.brown_last_value = walked;
        walked
    }

    /// One snare-colored sample: white noise through a one-pole high-pass
    /// `y = HP_COEFF * (x - x1 + y1)`, clamped to `[-SCALE, SCALE]`.
    fn snare_noise(&mut self) -> (r: i64)
        requires
            old(self).wf(),
        ensures
            final(self).wf(),
            final(self).noise_type == old(self).noise_type,
            final(self).pink_state == old(self).pink_state,
            final(self).pink_running_sum == old(self).pink_running_sum,
            final(self).brown_last_value == old(self).brown_last_value,
            -SCALE <= r <= SCALE,
            -SCALE <= final(self).hp_x1 <= SCALE,
            final(self).hp_y1 == spec_mul_q(
                HP_COEFF as int,
                final(self).hp_x1 - old(self).hp_x1 + old(self).hp_y1,
            ),
            r == spec_clamp(final(self).hp_y1 as int, -SCALE as int, SCALE as int),
    {
        let white: i64 = self.white_noise();
        let arg: i64 = white - self.hp_x1 + self.hp_y1;
        let hp: i64 = mul_q(HP_COEFF, arg);
        proof {
            crate::fixed::lemma_mul_q_bound(
                HP_COEFF as int,
                arg as int,
                HP_COEFF as int,
                (2 * SCALE + SNARE_Y_BOUND) as int,
            );
        }
        self.hp_x1 = white;
        self.hp_y1 = hp;
        clamp_i64(hp, -SCALE, SCALE)
    }

    /// One sample of this generator's color. Whatever the pseudo-random
    /// draws, the result stays inside `[-PINK_OUT_BOUND, PINK_OUT_BOUND]`,
    /// and inside `[-SCALE, SCALE]` for every color but pink.
    pub fn generate(&mut self) -> (r: i64)
        requires
            old(self).wf(),
        ensures
            final(self).wf(),
            final(self).spec_noise_type() == old(self).spec_noise_type(),
            -PINK_OUT_BOUND <= r <= PINK_OUT_BOUND,
            old(self).spec_noise_type() != NoiseType::Pink ==> -SCALE <= r <= SCALE,
            old(self).spec_noise_type() == NoiseType::Brown ==> r == final(self).spec_brown_last()
                && r - old(self).spec_brown_last() <= BROWN_STEP_GAIN && old(self).spec_brown_last() - r <= BROWN_STEP_GAIN,
            old(self).spec_noise_type() == NoiseType::Snare ==> -SCALE <= final(self).spec_hp_x1() <= SCALE && final(self).spec_hp_y1() == spec_mul_q(
                HP_COEFF as int,
                final(self).spec_hp_x1() - old(self).spec_hp_x1() + old(self).spec_hp_y1(),
            ) && r == spec_clamp(final(self).spec_hp_y1() as int, -SCALE as int, SCALE as int),
    {
        match self.noise_type {
            NoiseType::White => self.white_noise(),
            NoiseType::Pink => self.pink_noise(),
            NoiseType::Brown => self.brown_noise(),
            NoiseType::Snare => self.snare_noise(),
        }
    }
}

/// One leaky-integrator update `decay * state + white * gain`, all Q16.16;
/// preserves the `PINK_BOUND` register bound for this crate's coefficients.
fn pink_stage(decay: i64, state: i64, white: i64, gain: i64) -> (r: i64)
    requires
        0 <= decay,
        0 <= gain,
        decay * 64 + gain <= PINK_BOUND,
        -PINK_BOUND <= state <= PINK_BOUND,
        -SCALE <= white <= SCALE,
    ensures
        -PINK_BOUND <= r <= PINK_BOUND,
        r == spec_mul_q(decay as int, state as int) + spec_mul_q(white as int, gain as int),
{
    let kept: i64 = mul_q(decay, state);
    let fed: i64 = mul_q(white, gain);
    proof {
        crate::fixed::lemma_mul_q_bound(
            decay as int,
            state as int,
            decay as int,
            PINK_BOUND as int,
        );
        assert((decay as int) * (PINK_BOUND as int) == ((decay as int) * 64) * (SCALE as int))
            by (nonlinear_arith)
            requires
                PINK_BOUND == 64 * SCALE,
        ;
        vstd::arithmetic::div_mod::lemma_div_by_multiple((decay as int) * 64, SCALE as int);
        crate::fixed::lemma_mul_q_bound(white as int, gain as int, SCALE as int, gain as int);
        assert((SCALE as int) * (gain as int) == (gain as int) * (SCALE as int));
        vstd::arithmetic::div_mod::lemma_div_by_multiple(gain as int, SCALE as int);
    }
    kept + fed
}

/// One blended sample: the carrier at weight `SCALE - mix` plus the noise
/// draw at weight `mix`, clamped into `[-SCALE, SCALE]`.
pub open spec fn spec_mix(signal: int, nz: int, mix: int) -> int {
    spec_clamp(
        spec_mul_q(signal, (SCALE as int) - mix) + spec_mul_q(nz, mix),
        -SCALE as int,
        SCALE as int,
    )
}

/// Blends one noise color into a carrier signal at a configurable ratio and
/// clamps the blend to `[-SCALE, SCALE]`.
pub struct NoiseMixer {
    generator: NoiseGenerator,
    mix_level: i64,
}

impl NoiseMixer {
    /// The generator is well formed and the mix ratio lies in `[0, SCALE]`.
    pub closed spec fn wf(self) -> bool {
        &&& self.generator.wf()
        &&& 0 <= self.mix_level <= SCALE
    }

    /// The current wet/dry ratio, Q16.16.
    pub closed spec fn spec_mix_level(self) -> i64 {
        self.mix_level
    }

    /// The color of the owned generator.
    pub closed spec fn spec_noise_type(self) -> NoiseType {
        self.generator.spec_noise_type()
    }

    /// A fresh mixer over a seeded generator, half wet by default.
    pub fn new(noise_type: NoiseType, seed: u64) -> (r: NoiseMixer)
        ensures
            r.wf(),
            r.spec_mix_level() == SCALE / 2,
    {
        NoiseMixer { generator: NoiseGenerator::new(noise_type, seed), mix_level: SCALE / 2 }
    }

    /// Sets the wet/dry ratio, clamped into `[0, SCALE]`.
    pub fn set_mix_level(&mut self, level: i64)
        requires
            old(self).wf(),
        ensures
            final(self).wf(),
            final(self).spec_mix_level() == spec_clamp(level as int, 0, SCALE as int),
    {
        self.mix_level = clamp_i64(level, 0, SCALE);
    }

    /// The current wet/dry ratio.
    pub fn get_mix_level(&self) -> (r: i64)
        ensures
            r == self.spec_mix_level(),
    {
        self.mix_level
    }

    /// One blended sample: `signal * (1 - mix) + noise * mix`, clamped into
    /// `[-SCALE, SCALE]` whatever the draw; the result is exactly
    /// `spec_mix` for some draw inside the generator's bound.
    pub fn mix_with_signal(&mut self, signal: i64) -> (r: i64)
        requires
            old(self).wf(),
            -crate::fixed::Q_LIMIT <= signal <= crate::fixed::Q_LIMIT,
        ensures
            final(self).wf(),
            final(self).spec_mix_level() == old(self).spec_mix_level(),
            final(self).spec_noise_type() == old(self).spec_noise_type(),
            -SCALE <= r <= SCALE,
            exists|nz: int|
                -PINK_OUT_BOUND <= nz <= PINK_OUT_BOUND && (old(self).spec_noise_type()
                    != NoiseType::Pink ==> -SCALE <= nz <= SCALE) && r == #[trigger] spec_mix(
                    signal as int,
                    nz,
                    old(self).spec_mix_level() as int,
                ),
    {
        let noise: i64 = self.generator.generate();
        let dry: i64 = mul_q(signal, SCALE - self.mix_level);
        let wet: i64 = mul_q(noise, self.mix_level);
        proof {
            crate::fixed::lemma_mul_q_bound(
                signal as int,
                (SCALE - self.mix_level) as int,
                crate::fixed::Q_LIMIT as int,
                SCALE as int,
            );
            crate::fixed::lemma_mul_q_gain(
                noise as int,
                self.mix_level as int,
                PINK_OUT_BOUND as int,
            );
        }
        let r: i64 = clamp_i64(dry + wet, -SCALE, SCALE);
        proof {
            assert(r == spec_mix(signal as int, noise as int, old(self).spec_mix_level() as int));
        }
        r
    }

    /// One noise sample scaled by the mix ratio, bounded like `generate`;
    /// exactly the scaled draw for some draw inside the generator's bound.
    pub fn generate_noise(&mut self) -> (r: i64)
        requires
            old(self).wf(),
        ensures
            final(self).wf(),
            final(self).spec_mix_level() == old(self).spec_mix_level(),
            final(self).spec_noise_type() == old(self).spec_noise_type(),
            -PINK_OUT_BOUND <= r <= PINK_OUT_BOUND,
            exists|nz: int|
                -PINK_OUT_BOUND <= nz <= PINK_OUT_BOUND && (old(self).spec_noise_type()
                    != NoiseType::Pink ==> -SCALE <= nz <= SCALE) && r == #[trigger] spec_mul_q(
                    nz,
                    old(self).spec_mix_level() as int,
                ),
    {
        let noise: i64 = self.generator.generate();
        proof {
            crate::fixed::lemma_mul_q_gain(
                noise as int,
                self.mix_level as int,
                PINK_OUT_BOUND as int,
            );
        }
        let r: i64 = mul_q(noise, self.mix_level);
        proof {
            assert(r == spec_mul_q(noise as int, old(self).spec_mix_level() as int));
        }
        r
    }
}

/// A snare-colored generator with the given seed.
pub fn snare_noise(seed: u64) -> (r: NoiseGenerator)
    ensures
        r.wf(),
        r.spec_noise_type() == NoiseType::Snare,
{
    NoiseGenerator::new(NoiseType::Snare, seed)
}

} // verus!
