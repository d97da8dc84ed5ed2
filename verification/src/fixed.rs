//! Q16.16 fixed-point arithmetic: the number 1.0 is `SCALE` = 65536.
//! All signal samples, gains, envelope amplitudes and mix ratios in this
//! crate are `i64` values in this format.

use vstd::prelude::*;

verus! {

/// One full-scale unit: the fixed-point representation of 1.0.
pub const SCALE: i64 = 65536;

/// Largest magnitude accepted by the fixed-point multiplier; wide enough for
/// any mixed signal this crate produces, small enough that products fit i128
/// and quotients fit i64.
pub const Q_LIMIT: i64 = 0x80_0000_0000;

/// Mathematical value of `a * b / SCALE` rounded toward zero.
pub open spec fn spec_mul_q(a: int, b: int) -> int {
    if a * b >= 0 {
        (a * b) / (SCALE as int)
    } else {
        -((-(a * b)) / (SCALE as int))
    }
}

/// Fixed-point product: `a * b` scaled back down by `SCALE`, rounded toward
/// zero, exactly as `spec_mul_q` states.
pub fn mul_q(a: i64, b: i64) -> (r: i64)
    requires
        -Q_LIMIT <= a <= Q_LIMIT,
        -Q_LIMIT <= b <= Q_LIMIT,
    ensures
        r == spec_mul_q(a as int, b as int),
{
    proof {
        assert(-(Q_LIMIT as int) * (Q_LIMIT as int) <= (a as int) * (b as int) <= (Q_LIMIT as int)
            * (Q_LIMIT as int)) by (nonlinear_arith)
            requires
                -Q_LIMIT <= a <= Q_LIMIT,
                -Q_LIMIT <= b <= Q_LIMIT,
        ;
    }
    let p: i128 = (a as i128) * (b as i128);
    if p >= 0 {
        let q: i128 = p / (SCALE as i128);
        proof {
            vstd::arithmetic::div_mod::lemma_div_is_ordered(
                p as int,
                (Q_LIMIT as int) * (Q_LIMIT as int),
                SCALE as int,
            );
            vstd::arithmetic::div_mod::lemma_div_pos_is_pos(p as int, SCALE as int);
        }
        q as i64
    } else {
        let q: i128 = (-p) / (SCALE as i128);
        proof {
            vstd::arithmetic::div_mod::lemma_div_is_ordered(
                (-p) as int,
                (Q_LIMIT as int) * (Q_LIMIT as int),
                SCALE as int,
            );
            vstd::arithmetic::div_mod::lemma_div_pos_is_pos((-p) as int, SCALE as int);
        }
        -(q as i64)
    }
}

/// The magnitude of a fixed-point product is bounded by the product of the
/// factors' magnitude bounds, scaled back down.
pub proof fn lemma_mul_q_bound(a: int, b: int, am: int, bm: int)
    requires
        -am <= a <= am,
        -bm <= b <= bm,
        0 <= am,
        0 <= bm,
    ensures
        -(am * bm / (SCALE as int)) <= spec_mul_q(a, b) <= am * bm / (SCALE as int),
{
    let p = a * b;
    assert(-(am * bm) <= p <= am * bm) by (nonlinear_arith)
        requires
            -am <= a <= am,
            -bm <= b <= bm,
            0 <= am,
            0 <= bm,
            p == a * b,
    ;
    vstd::arithmetic::div_mod::lemma_div_pos_is_pos(am * bm, SCALE as int);
    if p >= 0 {
        vstd::arithmetic::div_mod::lemma_div_is_ordered(p, am * bm, SCALE as int);
        vstd::arithmetic::div_mod::lemma_div_pos_is_pos(p, SCALE as int);
    } else {
        vstd::arithmetic::div_mod::lemma_div_is_ordered(-p, am * bm, SCALE as int);
        vstd::arithmetic::div_mod::lemma_div_pos_is_pos(-p, SCALE as int);
    }
}

/// Multiplying by a gain in `[0, SCALE]` never grows the magnitude.
pub proof fn lemma_mul_q_gain(a: int, b: int, am: int)
    requires
        -am <= a <= am,
        0 <= b <= SCALE,
        0 <= am,
    ensures
        -am <= spec_mul_q(a, b) <= am,
{
    lemma_mul_q_bound(a, b, am, SCALE as int);
    vstd::arithmetic::div_mod::lemma_div_by_multiple(am, SCALE as int);
}

/// Multiplying by a gain in `[0, SCALE]` keeps the sign and contracts
/// toward zero.
pub proof fn lemma_mul_q_contract(a: int, b: int)
    requires
        0 <= b <= SCALE,
    ensures
        a >= 0 ==> 0 <= spec_mul_q(a, b) <= a,
        a <= 0 ==> a <= spec_mul_q(a, b) <= 0,
{
    let p = a * b;
    if a >= 0 {
        assert(0 <= p <= a * (SCALE as int)) by (nonlinear_arith)
            requires
                a >= 0,
                0 <= b <= SCALE,
                p == a * b,
        ;
        vstd::arithmetic::div_mod::lemma_div_is_ordered(p, a * (SCALE as int), SCALE as int);
        vstd::arithmetic::div_mod::lemma_div_by_multiple(a, SCALE as int);
        vstd::arithmetic::div_mod::lemma_div_pos_is_pos(p, SCALE as int);
    } else {
        assert(0 <= -p <= (-a) * (SCALE as int)) by (nonlinear_arith)
            requires
                a <= 0,
                0 <= b <= SCALE,
                p == a * b,
        ;
        vstd::arithmetic::div_mod::lemma_div_is_ordered(-p, (-a) * (SCALE as int), SCALE as int);
        vstd::arithmetic::div_mod::lemma_div_by_multiple(-a, SCALE as int);
        vstd::arithmetic::div_mod::lemma_div_pos_is_pos(-p, SCALE as int);
        if p >= 0 {
            assert(p == 0) by (nonlinear_arith)
                requires
                    a <= 0,
                    b >= 0,
                    p == a * b,
                    p >= 0,
            ;
            vstd::arithmetic::div_mod::lemma_div_of0(SCALE as int);
        }
    }
}

/// Multiplying by `SCALE` itself is the identity.
pub proof fn lemma_mul_q_identity(a: int)
    ensures
        spec_mul_q(a, SCALE as int) == a,
{
    if a >= 0 {
        vstd::arithmetic::div_mod::lemma_div_by_multiple(a, SCALE as int);
    } else {
        assert(-(a * (SCALE as int)) == (-a) * (SCALE as int)) by (nonlinear_arith);
        vstd::arithmetic::div_mod::lemma_div_by_multiple(-a, SCALE as int);
        assert(a * (SCALE as int) < 0) by (nonlinear_arith)
            requires
                a < 0,
                SCALE > 0,
        ;
    }
}

/// Clamps `x` into `[lo, hi]`.
pub open spec fn spec_clamp(x: int, lo: int, hi: int) -> int {
    if x < lo {
        lo
    } else if x > hi {
        hi
    } else {
        x
    }
}

/// Clamps a value into a closed interval.
pub fn clamp_i64(x: i64, lo: i64, hi: i64) -> (r: i64)
    requires
        lo <= hi,
    ensures
        r == spec_clamp(x as int, lo as int, hi as int),
        lo <= r <= hi,
{
    if x < lo {
        lo
    } else if x > hi {
        hi
    } else {
        x
    }
}

/// Clamps a value into a closed interval of `u64`.
pub fn clamp_u64(x: u64, lo: u64, hi: u64) -> (r: u64)
    requires
        lo <= hi,
    ensures
        r == spec_clamp(x as int, lo as int, hi as int),
        lo <= r <= hi,
{
    if x < lo {
        lo
    } else if x > hi {
        hi
    } else {
        x
    }
}

/// Quotient rounded toward zero, for a positive divisor.
pub open spec fn spec_div_t(num: int, den: int) -> int {
    if num >= 0 {
        num / den
    } else {
        -((-num) / den)
    }
}

/// Truncating division by a positive divisor, exactly `spec_div_t`; the
/// magnitude never grows.
pub fn div_t(num: i64, den: i64) -> (r: i64)
    requires
        1 <= den,
        num > i64::MIN,
    ensures
        r == spec_div_t(num as int, den as int),
        num >= 0 ==> 0 <= r <= num,
        num <= 0 ==> num <= r <= 0,
{
    if num >= 0 {
        let q: i64 = ((num as u64) / (den as u64)) as i64;
        proof {
            vstd::arithmetic::div_mod::lemma_div_pos_is_pos(num as int, den as int);
            vstd::arithmetic::div_mod::lemma_div_nonincreasing(num as int, den as int);
        }
        q
    } else {
        let q: i64 = (((-num) as u64) / (den as u64)) as i64;
        proof {
            vstd::arithmetic::div_mod::lemma_div_pos_is_pos(-(num as int), den as int);
            vstd::arithmetic::div_mod::lemma_div_nonincreasing(-(num as int), den as int);
        }
        -q
    }
}

/// Smooth saturation `x / (1 + |x|)` in Q16.16: `x * SCALE / (SCALE + |x|)`,
/// always strictly inside one full-scale unit, zero at zero, sign kept.
pub open spec fn spec_soft_clip(x: int) -> int {
    if x >= 0 {
        x * (SCALE as int) / ((SCALE as int) + x)
    } else {
        -((-x) * (SCALE as int) / ((SCALE as int) - x))
    }
}

/// Exec twin of `spec_soft_clip`.
pub fn soft_clip_q(x: i64) -> (r: i64)
    requires
        -Q_LIMIT <= x <= Q_LIMIT,
    ensures
        r == spec_soft_clip(x as int),
        -SCALE < r < SCALE,
        x == 0 ==> r == 0,
        x >= 0 ==> r >= 0,
        x <= 0 ==> r <= 0,
{
    let mag: i64 = if x >= 0 {
        x
    } else {
        -x
    };
    proof {
        assert((mag as int) * (SCALE as int) <= 0x80_0000_0000int * 65536int) by (nonlinear_arith)
            requires
                0 <= mag <= 0x80_0000_0000,
                SCALE == 65536,
        ;
        assert((mag as int) * (SCALE as int) < ((SCALE as int) + mag) * (SCALE as int))
            by (nonlinear_arith)
            requires
                mag >= 0,
                SCALE > 0,
        ;
        vstd::arithmetic::div_mod::lemma_multiply_divide_lt(
            (mag as int) * (SCALE as int),
            (SCALE as int) + (mag as int),
            SCALE as int,
        );
        vstd::arithmetic::div_mod::lemma_div_pos_is_pos(
            (mag as int) * (SCALE as int),
            (SCALE as int) + (mag as int),
        );
        if mag == 0 {
            assert((mag as int) * (SCALE as int) == 0) by (nonlinear_arith)
                requires
                    mag == 0,
            ;
            vstd::arithmetic::div_mod::lemma_div_of0((SCALE as int) + (mag as int));
        }
    }
    let q: i64 = (((mag as u64) * (SCALE as u64)) / ((SCALE + mag) as u64)) as i64;
    if x >= 0 {
        q
    } else {
        -q
    }
}

/// Floor of the base-2 logarithm of `x` (0 for `x = 1`).
pub open spec fn spec_log2_floor(x: int) -> int
    decreases x,
    when x >= 1
{
    if x < 2 {
        0
    } else {
        1 + spec_log2_floor(x / 2)
    }
}

/// `2^k` sits at or below `x`, and `2^(k+1)` above it, for `k` the floor of
/// the base-2 logarithm.
pub proof fn lemma_log2_floor_bounds(x: int)
    requires
        x >= 1,
    ensures
        0 <= spec_log2_floor(x),
        vstd::arithmetic::power2::pow2(spec_log2_floor(x) as nat) <= x,
        x < vstd::arithmetic::power2::pow2((spec_log2_floor(x) + 1) as nat),
    decreases x,
{
    vstd::arithmetic::power2::lemma2_to64();
    if x < 2 {
    } else {
        lemma_log2_floor_bounds(x / 2);
        let k = spec_log2_floor(x / 2);
        vstd::arithmetic::power2::lemma_pow2_unfold((k + 1) as nat);
        vstd::arithmetic::power2::lemma_pow2_unfold((k + 2) as nat);
        let p = vstd::arithmetic::power2::pow2(k as nat) as int;
        vstd::arithmetic::div_mod::lemma_fundamental_div_mod(x, 2);
        vstd::arithmetic::div_mod::lemma_mod_division_less_than_divisor(x, 2);
        assert(2 * p <= x) by (nonlinear_arith)
            requires
                p <= x / 2,
                x == 2 * (x / 2) + x % 2,
                0 <= x % 2,
        ;
        assert(x < 4 * p) by (nonlinear_arith)
            requires
                x / 2 < 2 * p,
                x == 2 * (x / 2) + x % 2,
                x % 2 < 2,
        ;
    }
}

/// Recursive exec twin of `spec_log2_floor`.
pub fn log2_floor(x: u64) -> (k: u32)
    requires
        x >= 1,
    ensures
        k == spec_log2_floor(x as int),
        0 <= k <= 63,
    decreases x,
{
    proof {
        lemma_log2_floor_bounds(x as int);
        if spec_log2_floor(x as int) > 63 {
            vstd::arithmetic::power2::lemma2_to64();
            vstd::arithmetic::power2::lemma_pow2_strictly_increases(
                64,
                spec_log2_floor(x as int) as nat,
            );
        }
    }
    if x < 2 {
        0
    } else {
        1 + log2_floor(x / 2)
    }
}

/// Exact power of two, for exponents whose value fits a `u64`.
pub fn pow2_u64(k: u32) -> (p: u64)
    requires
        k <= 63,
    ensures
        p == vstd::arithmetic::power2::pow2(k as nat),
        p >= 1,
    decreases k,
{
    if k == 0 {
        proof {
            vstd::arithmetic::power2::lemma2_to64();
        }
        1
    } else {
        let half: u64 = pow2_u64(k - 1);
        proof {
            vstd::arithmetic::power2::lemma_pow2_unfold(k as nat);
            vstd::arithmetic::power2::lemma2_to64();
            vstd::arithmetic::power2::lemma2_to64_rest();
            if k < 63 {
                vstd::arithmetic::power2::lemma_pow2_strictly_increases((k - 1) as nat, 62);
            }
        }
        2 * half
    }
}

/// Base-2 logarithm of `x` in Q16.16, with the fractional part linearly
/// interpolated between neighbouring powers of two:
/// `k * SCALE + (x * SCALE / 2^k - SCALE)` for `k` the floor logarithm.
pub open spec fn spec_log2_q16(x: int) -> int {
    let k = spec_log2_floor(x);
    k * (SCALE as int) + x * (SCALE as int) / (vstd::arithmetic::power2::pow2(k as nat) as int) - (
    SCALE as int)
}

/// Exec twin of `spec_log2_q16`, for inputs up to `Q_LIMIT`.
pub fn log2_q16(x: u64) -> (r: i64)
    requires
        1 <= x <= Q_LIMIT,
    ensures
        r == spec_log2_q16(x as int),
        0 <= r <= 2_621_440,
{
    let k: u32 = log2_floor(x);
    proof {
        lemma_log2_floor_bounds(x as int);
        vstd::arithmetic::power2::lemma_pow2_unfold((k + 1) as nat);
        if k >= 40 {
            vstd::arithmetic::power2::lemma2_to64_rest();
            if k > 40 {
                vstd::arithmetic::power2::lemma_pow2_strictly_increases(40, k as nat);
            }
        }
    }
    let p: u64 = pow2_u64(k);
    proof {
        assert((x as int) * (SCALE as int) <= 36_028_797_018_963_968int) by (nonlinear_arith)
            requires
                x <= 0x80_0000_0000,
                SCALE == 65536,
        ;
    }
    let scaled: u64 = x * (SCALE as u64);
    let frac_full: u64 = scaled / p;
    proof {
        let xi = x as int;
        let pi = p as int;
        assert(pi * (SCALE as int) <= xi * (SCALE as int) && xi * (SCALE as int) < 2 * pi * (
        SCALE as int)) by (nonlinear_arith)
            requires
                pi <= xi < 2 * pi,
                SCALE > 0,
        ;
        vstd::arithmetic::div_mod::lemma_div_is_ordered(
            pi * (SCALE as int),
            xi * (SCALE as int),
            pi,
        );
        assert(pi * (SCALE as int) == (SCALE as int) * pi);
        vstd::arithmetic::div_mod::lemma_div_by_multiple(SCALE as int, pi);
        vstd::arithmetic::div_mod::lemma_multiply_divide_lt(
            xi * (SCALE as int),
            pi,
            2 * (SCALE as int),
        );
    }
    (k as i64) * SCALE + (frac_full as i64) - SCALE
}

/// `2^(e / SCALE)` in Q16.16, with the fractional part linearly
/// interpolated: for `e = SCALE * i + f` (Euclidean, `0 <= f < SCALE`) the
/// value is `(SCALE + f) * 2^i`, saturated into `[0, Q_LIMIT]`.
pub open spec fn spec_pow2_q16(e: int) -> int {
    let i = e / (SCALE as int);
    let f = e % (SCALE as int);
    let base = (SCALE as int) + f;
    if i >= 23 {
        Q_LIMIT as int
    } else if i >= 0 {
        base * (vstd::arithmetic::power2::pow2(i as nat) as int)
    } else if i >= -63 {
        base / (vstd::arithmetic::power2::pow2((-i) as nat) as int)
    } else {
        0
    }
}

/// A non-positive exponent never produces more than one full-scale unit.
pub proof fn lemma_pow2_q16_nonpos(e: int)
    requires
        e <= 0,
    ensures
        spec_pow2_q16(e) <= SCALE,
{
    let i = e / (SCALE as int);
    let f = e % (SCALE as int);
    let base = (SCALE as int) + f;
    vstd::arithmetic::div_mod::lemma_fundamental_div_mod(e, SCALE as int);
    vstd::arithmetic::div_mod::lemma_mod_division_less_than_divisor(e, SCALE as int);
    vstd::arithmetic::power2::lemma2_to64();
    if i >= 0 {
        assert(e >= (SCALE as int) * i) by (nonlinear_arith)
            requires
                e == (SCALE as int) * i + f,
                f >= 0,
        ;
        assert((SCALE as int) * i >= 0) by (nonlinear_arith)
            requires
                i >= 0,
                SCALE > 0,
        ;
        assert(i == 0 && f == 0) by (nonlinear_arith)
            requires
                e == (SCALE as int) * i + f,
                e <= 0,
                0 <= f,
                i >= 0,
                SCALE > 0,
        ;
        assert(base * (vstd::arithmetic::power2::pow2(0) as int) == base) by (nonlinear_arith)
            requires
                vstd::arithmetic::power2::pow2(0) == 1,
        ;
    } else if i >= -63 {
        let p = vstd::arithmetic::power2::pow2((-i) as nat) as int;
        vstd::arithmetic::power2::lemma_pow2_unfold((-i) as nat);
        vstd::arithmetic::power2::lemma_pow2_pos((-i - 1) as nat);
        vstd::arithmetic::div_mod::lemma_div_is_ordered_by_denominator(base, 2, p);
        vstd::arithmetic::div_mod::lemma_div_is_ordered(base, 131_071, 2);
    }
}

/// Exec twin of `spec_pow2_q16`, for exponents up to about 2^31 in
/// magnitude (plenty for any decibel value this crate forms).
#[verifier::rlimit(60)]
pub fn pow2_q16(e: i64) -> (r: i64)
    requires
        -4_294_967_296 <= e <= 4_294_967_296,
    ensures
        r == spec_pow2_q16(e as int),
        0 <= r <= Q_LIMIT,
        e <= 0 ==> r <= SCALE,
{
    let i: i64 = if e >= 0 {
        e / SCALE
    } else {
        -(((-e) + (SCALE - 1)) / SCALE)
    };
    let f: i64 = e - SCALE * i;
    proof {
        if e >= 0 {
            vstd::arithmetic::div_mod::lemma_fundamental_div_mod(e as int, SCALE as int);
            vstd::arithmetic::div_mod::lemma_mod_division_less_than_divisor(e as int, SCALE as int);
        } else {
            let m = -(e as int);
            vstd::arithmetic::div_mod::lemma_fundamental_div_mod(
                m + (SCALE as int) - 1,
                SCALE as int,
            );
            vstd::arithmetic::div_mod::lemma_mod_division_less_than_divisor(
                m + (SCALE as int) - 1,
                SCALE as int,
            );
            vstd::arithmetic::div_mod::lemma_div_pos_is_pos(m + (SCALE as int) - 1, SCALE as int);
        }
        vstd::arithmetic::div_mod::lemma_fundamental_div_mod_converse(
            e as int,
            SCALE as int,
            i as int,
            f as int,
        );
    }
    proof {
        if e <= 0 {
            lemma_pow2_q16_nonpos(e as int);
        }
    }
    let base: i64 = SCALE + f;
    if i >= 23 {
        Q_LIMIT
    } else if i >= 0 {
        let p: u64 = pow2_u64(i as u32);
        proof {
            vstd::arithmetic::power2::lemma2_to64();
            if i > 0 {
                vstd::arithmetic::power2::lemma_pow2_strictly_increases(i as nat, 23);
            }
            vstd::arithmetic::power2::lemma2_to64_rest();
            assert((base as int) * (p as int) <= 131_071int * 4_194_304int) by (nonlinear_arith)
                requires
                    0 < base <= 131_071,
                    0 < p <= 4_194_304,
            ;
            assert((base as int) * (p as int) >= 0) by (nonlinear_arith)
                requires
                    0 < base,
                    0 < p,
            ;
        }
        base * (p as i64)
    } else if i >= -63 {
        let p: u64 = pow2_u64((-i) as u32);
        proof {
            vstd::arithmetic::div_mod::lemma_div_pos_is_pos(base as int, p as int);
            assert((p as int) * (base as int) >= (base as int)) by (nonlinear_arith)
                requires
                    base > 0,
                    p >= 1,
            ;
            vstd::arithmetic::div_mod::lemma_multiply_divide_le(
                base as int,
                p as int,
                base as int,
            );
            vstd::arithmetic::power2::lemma_pow2_unfold((-i) as nat);
            vstd::arithmetic::power2::lemma_pow2_pos((-(i as int) - 1) as nat);
            vstd::arithmetic::div_mod::lemma_div_is_ordered_by_denominator(
                base as int,
                2,
                p as int,
            );
            vstd::arithmetic::div_mod::lemma_div_is_ordered(base as int, 131_071, 2);
        }
        (base as u64 / p) as i64
    } else {
        0
    }
}

/// Number of phase-fraction units in one full cycle: a phase fraction is a
/// `u32` in `[0, PHASE_ONE)`, the position inside one waveform period.
pub const PHASE_ONE: u32 = 65536;

/// Half of `PHASE_ONE`: one half cycle.
pub const PHASE_HALF: u32 = 32768;

/// Rational half-wave approximation of `sin(pi * u / PHASE_HALF) * SCALE` for
/// `0 <= u <= PHASE_HALF`: with `p = u * (PHASE_HALF - u)`, the value is
/// `16 * SCALE * p / (5 * PHASE_HALF^2 - 4 * p)`.
pub open spec fn spec_half_sine_q(u: int) -> int {
    let h = PHASE_HALF as int;
    let p = u * (h - u);
    16 * (SCALE as int) * p / (5 * h * h - 4 * p)
}

/// One period of the engine's sine: positive half-wave on the first half
/// cycle, the mirrored negative half-wave on the second.
pub open spec fn spec_sine_q(frac: int) -> int {
    if frac < PHASE_HALF {
        spec_half_sine_q(frac)
    } else {
        -spec_half_sine_q(frac - PHASE_HALF)
    }
}

proof fn lemma_half_sine_bounds(u: int)
    requires
        0 <= u <= PHASE_HALF,
    ensures
        0 <= spec_half_sine_q(u) <= SCALE,
        u == 0 ==> spec_half_sine_q(u) == 0,
        u == PHASE_HALF ==> spec_half_sine_q(u) == 0,
{
    let h = PHASE_HALF as int;
    let p = u * (h - u);
    assert(0 <= p && 4 * p <= h * h) by (nonlinear_arith)
        requires
            0 <= u <= h,
            p == u * (h - u),
    ;
    let den = 5 * h * h - 4 * p;
    assert(den >= 4 * h * h);
    vstd::arithmetic::div_mod::lemma_div_pos_is_pos(16 * (SCALE as int) * p, den);
    assert(16 * (SCALE as int) * p <= den * (SCALE as int)) by (nonlinear_arith)
        requires
            den == 5 * h * h - 4 * p,
            4 * p <= h * h,
            0 <= p,
            h == PHASE_HALF as int,
    ;
    vstd::arithmetic::div_mod::lemma_multiply_divide_le(16 * (SCALE as int) * p, den, SCALE as int);
    if u == 0 || u == h {
        assert(p == 0) by (nonlinear_arith)
            requires
                p == u * (h - u),
                u == 0 || u == h,
        ;
        assert(16 * (SCALE as int) * p == 0) by (nonlinear_arith)
            requires
                p == 0,
        ;
        vstd::arithmetic::div_mod::lemma_div_of0(den);
    }
}

/// The sine approximation stays inside one full-scale unit, and both ends of
/// each half cycle sit exactly on zero.
pub proof fn lemma_sine_q_bounds(frac: int)
    requires
        0 <= frac < PHASE_ONE,
    ensures
        -SCALE <= spec_sine_q(frac) <= SCALE,
        frac == 0 ==> spec_sine_q(frac) == 0,
        frac == PHASE_HALF ==> spec_sine_q(frac) == 0,
{
    if frac < PHASE_HALF {
        lemma_half_sine_bounds(frac);
    } else {
        lemma_half_sine_bounds(frac - PHASE_HALF as int);
    }
}

fn half_sine_q(u: u32) -> (r: i64)
    requires
        u <= PHASE_HALF,
    ensures
        r == spec_half_sine_q(u as int),
        0 <= r <= SCALE,
{
    proof {
        lemma_half_sine_bounds(u as int);
        assert((u as int) * ((PHASE_HALF - u) as int) <= (PHASE_HALF as int) * (PHASE_HALF as int))
            by (nonlinear_arith)
            requires
                0 <= u <= PHASE_HALF,
        ;
    }
    let p: u64 = (u as u64) * ((PHASE_HALF - u) as u64);
    let den: u64 = 5 * (PHASE_HALF as u64) * (PHASE_HALF as u64) - 4 * p;
    let num: u64 = 16 * (SCALE as u64) * p;
    (num / den) as i64
}

/// Fixed-point sine of a phase fraction: one full cycle over
/// `[0, PHASE_ONE)`, exactly `spec_sine_q`.
pub fn sine_q(frac: u32) -> (r: i64)
    requires
        frac < PHASE_ONE,
    ensures
        r == spec_sine_q(frac as int),
        -SCALE <= r <= SCALE,
{
    proof {
        lemma_sine_q_bounds(frac as int);
    }
    if frac < PHASE_HALF {
        half_sine_q(frac)
    } else {
        -half_sine_q(frac - PHASE_HALF)
    }
}

} // verus!
