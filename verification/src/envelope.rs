//! Time-keyed ADSR amplitude envelope.
//!
//! The amplitude is recomputed fresh from `elapsed = current_time -
//! trigger_time` on every query; there is no per-sample integration. The
//! release tail is a fixed length baked into the configuration, not gated by
//! a note-off event, so `release` only exists to forward the call shape.
//! Durations are microseconds; amplitudes are Q16.16 (`SCALE` is 1.0).

use vstd::prelude::*;

use crate::fixed::SCALE;

verus! {

/// Shortest accepted stage duration, in microseconds.
pub const MIN_STAGE_US: u64 = 1;

/// Longest accepted stage duration, in microseconds (one day), far inside
/// what the amplitude arithmetic can hold without overflow.
pub const MAX_STAGE_US: u64 = 86_400_000_000;

/// Attack, decay, sustain and release settings of one envelope. Durations in
/// microseconds, sustain level in Q16.16.
#[derive(Clone, Copy, Debug, PartialEq, Eq, Structural)]
pub struct ADSRConfig {
    pub attack_time: u64,
    pub decay_time: u64,
    pub sustain_level: i64,
    pub release_time: u64,
}

impl ADSRConfig {
    /// All durations lie in `[MIN_STAGE_US, MAX_STAGE_US]` and the sustain
    /// level in `[0, SCALE]`.
    pub open spec fn wf(self) -> bool {
        &&& MIN_STAGE_US <= self.attack_time <= MAX_STAGE_US
        &&& MIN_STAGE_US <= self.decay_time <= MAX_STAGE_US
        &&& MIN_STAGE_US <= self.release_time <= MAX_STAGE_US
        &&& 0 <= self.sustain_level <= SCALE
    }

    /// Builds a configuration, clamping every field into its valid interval:
    /// out-of-range settings are corrected, never rejected.
    pub fn new(attack_time: u64, decay_time: u64, sustain_level: i64, release_time: u64) -> (r:
        ADSRConfig)
        ensures
            r.wf(),
            r.attack_time == crate::fixed::spec_clamp(
                attack_time as int,
                MIN_STAGE_US as int,
                MAX_STAGE_US as int,
            ),
            r.decay_time == crate::fixed::spec_clamp(
                decay_time as int,
                MIN_STAGE_US as int,
                MAX_STAGE_US as int,
            ),
            r.sustain_level == crate::fixed::spec_clamp(sustain_level as int, 0, SCALE as int),
            r.release_time == crate::fixed::spec_clamp(
                release_time as int,
                MIN_STAGE_US as int,
                MAX_STAGE_US as int,
            ),
    {
        ADSRConfig {
            attack_time: crate::fixed::clamp_u64(attack_time, MIN_STAGE_US, MAX_STAGE_US),
            decay_time: crate::fixed::clamp_u64(decay_time, MIN_STAGE_US, MAX_STAGE_US),
            sustain_level: crate::fixed::clamp_i64(sustain_level, 0, SCALE),
            release_time: crate::fixed::clamp_u64(release_time, MIN_STAGE_US, MAX_STAGE_US),
        }
    }
}

/// A time-keyed ADSR envelope. `trigger_time` is the absolute time of the
/// last trigger, `current_time` the elapsed time recorded at the last
/// amplitude query, both in microseconds.
pub struct Envelope {
    pub attack_time: u64,
    pub decay_time: u64,
    pub sustain_level: i64,
    pub release_time: u64,
    pub current_time: u64,
    pub is_active: bool,
    pub trigger_time: u64,
}

impl Envelope {
    /// The durations and the sustain level are in their valid intervals.
    pub open spec fn wf(self) -> bool {
        self.config().wf()
    }

    /// The ADSR settings currently held by this envelope.
    pub open spec fn config(self) -> ADSRConfig {
        ADSRConfig {
            attack_time: self.attack_time,
            decay_time: self.decay_time,
            sustain_level: self.sustain_level,
            release_time: self.release_time,
        }
    }

    /// Elapsed time since the trigger, never negative.
    pub open spec fn spec_elapsed(self, t: int) -> int {
        if t >= self.trigger_time {
            t - self.trigger_time
        } else {
            0
        }
    }

    /// The envelope amplitude at absolute time `t`: 0 when idle; a linear
    /// ramp 0 to `SCALE` over the attack; a linear ramp `SCALE` down to the
    /// sustain level over the decay; a linear ramp from the sustain level to
    /// 0 over the release; 0 once every stage has passed.
    pub open spec fn spec_amplitude(self, t: int) -> int {
        let e = self.spec_elapsed(t);
        let a = self.attack_time as int;
        let d = self.decay_time as int;
        let r = self.release_time as int;
        let s = self.sustain_level as int;
        if !self.is_active {
            0
        } else if e < a {
            e * (SCALE as int) / a
        } else if e < a + d {
            (SCALE as int) - ((SCALE as int) - s) * (e - a) / d
        } else if e < a + d + r {
            s * (a + d + r - e) / r
        } else {
            0
        }
    }

    /// Whether the envelope is still inside its attack-decay-release span at
    /// time `t`.
    pub open spec fn spec_running(self, t: int) -> bool {
        self.is_active && self.spec_elapsed(t) < self.attack_time + self.decay_time
            + self.release_time
    }

    /// A fresh, idle envelope with the default percussive shape: 10 ms
    /// attack, 300 ms decay, no sustain, 500 ms release.
    pub fn new() -> (r: Envelope)
        ensures
            r.wf(),
            !r.is_active,
            r.trigger_time == 0,
            r.current_time == 0,
            r.config() == (ADSRConfig {
                attack_time: 10_000u64,
                decay_time: 300_000u64,
                sustain_level: 0i64,
                release_time: 500_000u64,
            }),
    {
        Envelope {
            attack_time: 10_000,
            decay_time: 300_000,
            sustain_level: 0,
            release_time: 500_000,
            current_time: 0,
            is_active: false,
            trigger_time: 0,
        }
    }

    /// A fresh, idle envelope with the given settings.
    pub fn with_config(config: ADSRConfig) -> (r: Envelope)
        requires
            config.wf(),
        ensures
            r.wf(),
            !r.is_active,
            r.trigger_time == 0,
            r.current_time == 0,
            r.config() == config,
    {
        Envelope {
            attack_time: config.attack_time,
            decay_time: config.decay_time,
            sustain_level: config.sustain_level,
            release_time: config.release_time,
            current_time: 0,
            is_active: false,
            trigger_time: 0,
        }
    }

    /// Replaces the ADSR settings; the run state is untouched.
    pub fn set_config(&mut self, config: ADSRConfig)
        requires
            config.wf(),
        ensures
            final(self).wf(),
            final(self).config() == config,
            final(self).is_active == old(self).is_active,
            final(self).trigger_time == old(self).trigger_time,
            final(self).current_time == old(self).current_time,
    {
        self.attack_time = config.attack_time;
        self.decay_time = config.decay_time;
        self.sustain_level = config.sustain_level;
        self.release_time = config.release_time;
    }

    /// Starts (or restarts) the envelope at absolute time `time`. The reset
    /// is unconditional, even mid-envelope: a retrigger while still sounding
    /// restarts the amplitude from zero at once.
    pub fn trigger(&mut self, time: u64)
        ensures
            final(self).is_active,
            final(self).trigger_time == time,
            final(self).current_time == 0,
            final(self).config() == old(self).config(),
    {
        self.is_active = true;
        self.trigger_time = time;
        self.current_time = 0;
    }

    /// The release tail is part of the configured shape, so a note-off
    /// changes nothing; the call exists to match the voice interface.
    pub fn release(&mut self, time: u64)
        ensures
            *final(self) == *old(self),
    {
        let _ = time;
    }

    /// The amplitude at absolute time `current_time`, exactly
    /// `spec_amplitude`; records the elapsed time and retires the envelope
    /// once every stage has passed.
    pub fn get_amplitude(&mut self, current_time: u64) -> (r: i64)
        requires
            old(self).wf(),
        ensures
            r == old(self).spec_amplitude(current_time as int),
            0 <= r <= SCALE,
            final(self).config() == old(self).config(),
            final(self).trigger_time == old(self).trigger_time,
            final(self).is_active == old(self).spec_running(current_time as int),
            final(self).wf(),
            !old(self).is_active ==> *final(self) == *old(self),
            old(self).is_active ==> final(self).current_time == old(self).spec_elapsed(
                current_time as int,
            ),
    {
        if !self.is_active {
            return 0;
        }
        let elapsed: u64 = if current_time >= self.trigger_time {
            current_time - self.trigger_time
        } else {
            0
        };
        self.current_time = elapsed;
        let a: u64 = self.attack_time;
        let d: u64 = self.decay_time;
        let rl: u64 = self.release_time;
        let s: i64 = self.sustain_level;
        if elapsed < a {
            proof {
                assert(elapsed * (SCALE as u64) <= MAX_STAGE_US * (SCALE as u64))
                    by (nonlinear_arith)
                    requires
                        0 <= elapsed <= MAX_STAGE_US,
                ;
            }
            let num: u64 = elapsed * (SCALE as u64);
            let q: u64 = num / a;
            proof {
                assert((num as int) < (a as int) * (SCALE as int)) by (nonlinear_arith)
                    requires
                        num == (elapsed as int) * (SCALE as int),
                        elapsed < a,
                        SCALE > 0,
                ;
                vstd::arithmetic::div_mod::lemma_multiply_divide_lt(
                    num as int,
                    a as int,
                    SCALE as int,
                );
                vstd::arithmetic::div_mod::lemma_div_pos_is_pos(num as int, a as int);
            }
            q as i64
        } else if elapsed < a + d {
            proof {
                assert(((SCALE - s) as u64) * ((elapsed - a) as u64) <= (SCALE as u64)
                    * MAX_STAGE_US) by (nonlinear_arith)
                    requires
                        0 <= SCALE - s <= SCALE,
                        0 <= elapsed - a <= MAX_STAGE_US,
                ;
            }
            let drop: u64 = ((SCALE - s) as u64) * (elapsed - a);
            let q: u64 = drop / d;
            proof {
                assert(drop <= ((SCALE - s) as u64) * d) by (nonlinear_arith)
                    requires
                        drop == ((SCALE - s) as u64) * (elapsed - a),
                        elapsed - a < d,
                        SCALE - s >= 0,
                ;
                vstd::arithmetic::div_mod::lemma_multiply_divide_le(
                    drop as int,
                    d as int,
                    (SCALE - s) as int,
                );
                vstd::arithmetic::div_mod::lemma_div_pos_is_pos(drop as int, d as int);
            }
            SCALE - (q as i64)
        } else if elapsed < a + d + rl {
            let remaining: u64 = a + d + rl - elapsed;
            proof {
                assert((s as u64) * remaining <= (SCALE as u64) * MAX_STAGE_US)
                    by (nonlinear_arith)
                    requires
                        0 <= s <= SCALE,
                        0 <= remaining <= MAX_STAGE_US,
                ;
            }
            let num: u64 = (s as u64) * remaining;
            let q: u64 = num / rl;
            proof {
                assert(num <= (s as u64) * rl) by (nonlinear_arith)
                    requires
                        num == (s as u64) * remaining,
                        remaining <= rl,
                        s >= 0,
                ;
                vstd::arithmetic::div_mod::lemma_multiply_divide_le(
                    num as int,
                    rl as int,
                    s as int,
                );
                vstd::arithmetic::div_mod::lemma_div_pos_is_pos(num as int, rl as int);
            }
            q as i64
        } else {
            self.is_active = false;
            0
        }
    }
}

/// The amplitude of a well-formed envelope never leaves `[0, SCALE]`,
/// whatever the time.
pub proof fn lemma_amplitude_in_range(env: Envelope, t: int)
    requires
        env.wf(),
    ensures
        0 <= env.spec_amplitude(t) <= SCALE,
{
    let e = env.spec_elapsed(t);
    let a = env.attack_time as int;
    let d = env.decay_time as int;
    let r = env.release_time as int;
    let s = env.sustain_level as int;
    if env.is_active {
        if e < a {
            assert(e * (SCALE as int) < a * (SCALE as int)) by (nonlinear_arith)
                requires
                    0 <= e < a,
                    SCALE > 0,
            ;
            vstd::arithmetic::div_mod::lemma_multiply_divide_lt(
                e * (SCALE as int),
                a,
                SCALE as int,
            );
            assert(e * (SCALE as int) >= 0) by (nonlinear_arith)
                requires
                    e >= 0,
                    SCALE > 0,
            ;
            vstd::arithmetic::div_mod::lemma_div_pos_is_pos(e * (SCALE as int), a);
        } else if e < a + d {
            let drop = ((SCALE as int) - s) * (e - a);
            assert(0 <= drop <= ((SCALE as int) - s) * d) by (nonlinear_arith)
                requires
                    0 <= e - a < d,
                    0 <= (SCALE as int) - s,
                    drop == ((SCALE as int) - s) * (e - a),
            ;
            vstd::arithmetic::div_mod::lemma_multiply_divide_le(drop, d, (SCALE as int) - s);
            vstd::arithmetic::div_mod::lemma_div_pos_is_pos(drop, d);
        } else if e < a + d + r {
            let num = s * (a + d + r - e);
            assert(0 <= num <= s * r) by (nonlinear_arith)
                requires
                    0 < a + d + r - e <= r,
                    0 <= s,
                    num == s * (a + d + r - e),
            ;
            vstd::arithmetic::div_mod::lemma_multiply_divide_le(num, r, s);
            vstd::arithmetic::div_mod::lemma_div_pos_is_pos(num, r);
        }
    }
}

/// At the trigger instant the amplitude is exactly zero.
pub proof fn lemma_amplitude_at_trigger(env: Envelope)
    requires
        env.wf(),
        env.is_active,
    ensures
        env.spec_amplitude(env.trigger_time as int) == 0,
{
    let a = env.attack_time as int;
    assert(0 * (SCALE as int) == 0) by (nonlinear_arith);
    vstd::arithmetic::div_mod::lemma_div_of0(a);
}

/// At the end of the attack the amplitude is exactly `SCALE`.
pub proof fn lemma_amplitude_attack_peak(env: Envelope)
    requires
        env.wf(),
        env.is_active,
    ensures
        env.spec_amplitude(env.trigger_time + env.attack_time) == SCALE,
{
    let d = env.decay_time as int;
    let s = env.sustain_level as int;
    assert(((SCALE as int) - s) * 0 == 0) by (nonlinear_arith);
    vstd::arithmetic::div_mod::lemma_div_of0(d);
}

/// Through the attack the amplitude never moves down.
pub proof fn lemma_amplitude_attack_monotone(env: Envelope, t1: int, t2: int)
    requires
        env.wf(),
        env.is_active,
        env.trigger_time <= t1 <= t2 <= env.trigger_time + env.attack_time,
    ensures
        env.spec_amplitude(t1) <= env.spec_amplitude(t2),
{
    let a = env.attack_time as int;
    let e1 = env.spec_elapsed(t1);
    let e2 = env.spec_elapsed(t2);
    lemma_amplitude_in_range(env, t1);
    if e2 < a {
        assert(e1 * (SCALE as int) <= e2 * (SCALE as int)) by (nonlinear_arith)
            requires
                e1 <= e2,
                SCALE > 0,
        ;
        vstd::arithmetic::div_mod::lemma_div_is_ordered(
            e1 * (SCALE as int),
            e2 * (SCALE as int),
            a,
        );
    } else {
        lemma_amplitude_attack_peak(env);
    }
}

/// Through the attack the amplitude strictly rises between any two times at
/// least one amplitude quantum apart; with integer amplitudes, times closer
/// together than `attack_time / SCALE` may share a value.
pub proof fn lemma_amplitude_attack_strict(env: Envelope, t1: int, t2: int)
    requires
        env.wf(),
        env.is_active,
        env.trigger_time <= t1 < t2 <= env.trigger_time + env.attack_time,
        (t2 - t1) * SCALE >= env.attack_time,
    ensures
        env.spec_amplitude(t1) < env.spec_amplitude(t2),
{
    let a = env.attack_time as int;
    let e1 = env.spec_elapsed(t1);
    let e2 = env.spec_elapsed(t2);
    if e2 < a {
        assert(e1 * (SCALE as int) + a <= e2 * (SCALE as int)) by (nonlinear_arith)
            requires
                e2 - e1 >= 0,
                (e2 - e1) * (SCALE as int) >= a,
                e1 * (SCALE as int) + (e2 - e1) * (SCALE as int) == e2 * (SCALE as int),
        ;
        vstd::arithmetic::div_mod::lemma_div_plus_one(e1 * (SCALE as int), a);
        vstd::arithmetic::div_mod::lemma_div_is_ordered(
            a + e1 * (SCALE as int),
            e2 * (SCALE as int),
            a,
        );
    } else {
        lemma_amplitude_attack_peak(env);
        assert(e1 * (SCALE as int) < a * (SCALE as int)) by (nonlinear_arith)
            requires
                0 <= e1 < a,
                SCALE > 0,
        ;
        vstd::arithmetic::div_mod::lemma_multiply_divide_lt(e1 * (SCALE as int), a, SCALE as int);
    }
}

/// Through the decay the amplitude never moves up, and by the end of the
/// decay it has come down exactly to the sustain level.
pub proof fn lemma_amplitude_decay_monotone(env: Envelope, t1: int, t2: int)
    requires
        env.wf(),
        env.is_active,
        env.trigger_time + env.attack_time <= t1 <= t2 <= env.trigger_time + env.attack_time
            + env.decay_time,
    ensures
        env.spec_amplitude(t1) >= env.spec_amplitude(t2),
        env.spec_amplitude(env.trigger_time + env.attack_time + env.decay_time)
            == env.sustain_level,
{
    let a = env.attack_time as int;
    let d = env.decay_time as int;
    let r = env.release_time as int;
    let s = env.sustain_level as int;
    let e1 = env.spec_elapsed(t1);
    let e2 = env.spec_elapsed(t2);
    assert(s * r / r == s) by {
        vstd::arithmetic::div_mod::lemma_div_by_multiple(s, r);
    }
    assert(env.spec_amplitude(env.trigger_time + env.attack_time + env.decay_time) == s);
    if e2 < a + d {
        assert(((SCALE as int) - s) * (e1 - a) <= ((SCALE as int) - s) * (e2 - a))
            by (nonlinear_arith)
            requires
                e1 <= e2,
                (SCALE as int) - s >= 0,
        ;
        vstd::arithmetic::div_mod::lemma_div_is_ordered(
            ((SCALE as int) - s) * (e1 - a),
            ((SCALE as int) - s) * (e2 - a),
            d,
        );
    } else {
        let drop = ((SCALE as int) - s) * (e1 - a);
        assert(0 <= drop <= ((SCALE as int) - s) * d) by (nonlinear_arith)
            requires
                0 <= e1 - a <= d,
                0 <= (SCALE as int) - s,
                drop == ((SCALE as int) - s) * (e1 - a),
        ;
        vstd::arithmetic::div_mod::lemma_multiply_divide_le(drop, d, (SCALE as int) - s);
    }
}

/// From the end of the release onward the amplitude is exactly zero.
pub proof fn lemma_amplitude_release_end(env: Envelope, t: int)
    requires
        env.wf(),
        t >= env.trigger_time + env.attack_time + env.decay_time + env.release_time,
    ensures
        env.spec_amplitude(t) == 0,
{
}

} // verus!
