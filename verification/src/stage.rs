//! The mixing stage: a 16-step sequencer against a tempo clock, the owned
//! oscillator voices, and the dynamics chain (compressor, then brick-wall
//! limiter) that folds their sum into one bounded output stream.

use vstd::prelude::*;

use crate::compressor::Compressor;
use crate::envelope::Envelope;
use crate::envelope::ADSRConfig;
use crate::fixed::{clamp_i64, spec_clamp, Q_LIMIT, SCALE};
use crate::oscillator::{
    spec_ticked_voice_ok, Oscillator, FREQ_MAX, FREQ_MIN, OSC_RAW_BOUND, SR_MAX, SR_MIN,
};
use crate::waveform::Waveform;

verus! {

/// Number of instrument rows in the sequencer grid.
pub const SEQ_TRACKS: usize = 4;

/// Number of steps per pattern (16th notes over one bar).
pub const SEQ_STEPS: usize = 16;

/// Lowest accepted tempo, beats per minute.
pub const BPM_MIN: u32 = 60;

/// Highest accepted tempo, beats per minute.
pub const BPM_MAX: u32 = 180;

/// Most instruments a stage will hold; additions beyond it are ignored, so
/// the render path never overflows a sum.
pub const MAX_INSTRUMENTS: usize = 64;

/// A 16-step pattern scheduler: a boolean grid of `SEQ_TRACKS` rows stored
/// flat (row-major), a tempo, the current step, and the time of the last
/// step boundary (microseconds).
pub struct Sequencer {
    pub patterns: Vec<bool>,
    pub current_step: usize,
    pub is_playing: bool,
    pub bpm: u32,
    pub last_step_time: u64,
    pub step_interval: u64,
}

impl Sequencer {
    /// Full grid, step in range, tempo in range, and the step interval
    /// derived from the tempo: `60 / (bpm * 4)` seconds.
    pub open spec fn wf(self) -> bool {
        &&& self.patterns@.len() == SEQ_TRACKS * SEQ_STEPS
        &&& self.current_step < SEQ_STEPS
        &&& BPM_MIN <= self.bpm <= BPM_MAX
        &&& self.step_interval == 15_000_000int / (self.bpm as int)
    }

    /// The cell of one instrument at one step; false outside the grid.
    pub open spec fn spec_get_step(self, instrument: int, step: int) -> bool {
        if 0 <= instrument < SEQ_TRACKS && 0 <= step < SEQ_STEPS {
            self.patterns@[instrument * 16 + step]
        } else {
            false
        }
    }

    /// The step the sequencer lands on after one advance.
    pub open spec fn spec_next_step(self) -> int {
        (self.current_step + 1) % (SEQ_STEPS as int)
    }

    /// Whether a step boundary is due at `t`: the time since the last
    /// boundary has reached the step interval.
    pub open spec fn spec_due(self, t: int) -> bool {
        t >= self.last_step_time && t - self.last_step_time >= self.step_interval
    }

    /// A fresh, stopped sequencer: an empty grid at 120 BPM (16th notes
    /// every 125 ms), on step zero.
    pub fn new() -> (r: Sequencer)
        ensures
            r.wf(),
            !r.is_playing,
            r.current_step == 0,
            r.bpm == 120,
            r.step_interval == 125_000,
            r.last_step_time == 0,
            forall|i: int, s: int| !r.spec_get_step(i, s),
    {
        let patterns: Vec<bool> = blank_patterns();
        Sequencer {
            patterns,
            current_step: 0,
            is_playing: false,
            bpm: 120,
            last_step_time: 0,
            step_interval: 125_000,
        }
    }

    /// Starts playback.
    pub fn play(&mut self)
        ensures
            *final(self) == (Sequencer { is_playing: true, ..*old(self) }),
    {
        self.is_playing = true;
    }

    /// Stops playback; the grid and position stay.
    pub fn stop(&mut self)
        ensures
            *final(self) == (Sequencer { is_playing: false, ..*old(self) }),
    {
        self.is_playing = false;
    }

    /// Returns to step zero and forgets the last boundary.
    pub fn reset(&mut self)
        ensures
            *final(self) == (Sequencer { current_step: 0usize, last_step_time: 0u64, ..*old(self) }),
    {
        self.current_step = 0;
        self.last_step_time = 0;
    }

    /// Clears every cell of the grid.
    pub fn clear_all(&mut self)
        ensures
            final(self).patterns@.len() == SEQ_TRACKS * SEQ_STEPS,
            forall|i: int, s: int| !final(self).spec_get_step(i, s),
            *final(self) == (Sequencer { patterns: final(self).patterns, ..*old(self) }),
    {
        self.patterns = blank_patterns();
    }

    /// Sets one cell; out-of-range coordinates are a no-op.
    pub fn set_step(&mut self, instrument: usize, step: usize, enabled: bool)
        requires
            old(self).wf(),
        ensures
            final(self).wf(),
            *final(self) == (Sequencer { patterns: final(self).patterns, ..*old(self) }),
            instrument < SEQ_TRACKS && step < SEQ_STEPS ==> final(self).patterns@ == old(self).patterns@.update(instrument * 16 + step, enabled),
            !(instrument < SEQ_TRACKS && step < SEQ_STEPS) ==> final(self).patterns@ == old(self).patterns@,
    {
        if instrument < SEQ_TRACKS && step < SEQ_STEPS {
            let idx: usize = instrument * 16 + step;
            self.patterns.set(idx, enabled);
        }
    }

    /// Reads one cell; false outside the grid, exactly `spec_get_step`.
    pub fn get_step(&self, instrument: usize, step: usize) -> (r: bool)
        requires
            self.wf(),
        ensures
            r == self.spec_get_step(instrument as int, step as int),
    {
        if instrument < SEQ_TRACKS && step < SEQ_STEPS {
            let idx: usize = instrument * 16 + step;
            self.patterns[idx]
        } else {
            false
        }
    }

    /// Sets the tempo, clamped into `[BPM_MIN, BPM_MAX]`, and recomputes the
    /// interval used from the next comparison on; a pending step keeps the
    /// old boundary time.
    pub fn set_bpm(&mut self, bpm: u32)
        requires
            old(self).wf(),
        ensures
            final(self).wf(),
            final(self).bpm == spec_clamp(bpm as int, BPM_MIN as int, BPM_MAX as int),
            final(self).step_interval == 15_000_000int / (final(self).bpm as int),
            *final(self) == (Sequencer {
                bpm: final(self).bpm,
                step_interval: final(self).step_interval,
                ..*old(self)
            }),
    {
        let clamped: u32 = if bpm < BPM_MIN {
            BPM_MIN
        } else if bpm > BPM_MAX {
            BPM_MAX
        } else {
            bpm
        };
        self.bpm = clamped;
        self.step_interval = 15_000_000 / (clamped as u64);
    }

    /// Called once per render tick; the stage itself decides about
    /// triggering, so there is nothing to update here.
    pub fn update(&mut self, current_time: u64)
        ensures
            *final(self) == *old(self),
    {
        let _ = current_time;
    }

    /// Whether a step boundary is due at `current_time`, exactly `spec_due`.
    pub fn should_trigger_step(&self, current_time: u64) -> (r: bool)
        ensures
            r == self.spec_due(current_time as int),
    {
        current_time >= self.last_step_time && current_time - self.last_step_time
            >= self.step_interval
    }

    /// Advances exactly one step, wrapping at the pattern length. Scheduling
    /// lag is never caught up: one call moves one step.
    pub fn advance_step(&mut self)
        requires
            old(self).wf(),
        ensures
            final(self).wf(),
            final(self).current_step == (old(self).current_step + 1) % (SEQ_STEPS as int),
            *final(self) == (Sequencer { current_step: final(self).current_step, ..*old(self) }),
    {
        self.current_step = (self.current_step + 1) % SEQ_STEPS;
    }
}

/// A cleared sequencer grid.
fn blank_patterns() -> (r: Vec<bool>)
    ensures
        r@.len() == SEQ_TRACKS * SEQ_STEPS,
        forall|k: int| 0 <= k < r@.len() ==> !r@[k],
{
    let mut patterns: Vec<bool> = Vec::new();
    let mut k: usize = 0;
    while k < 64
        invariant
            patterns@.len() == k,
            k <= 64,
            forall|j: int| 0 <= j < k ==> !patterns@[j],
        decreases 64 - k,
    {
        patterns.push(false);
        k = k + 1;
    }
    patterns
}

/// Setting one cell and reading the grid back gives the written value at
/// that cell for every in-range pair, false outside the grid, and leaves
/// every other cell as it was.
pub proof fn lemma_step_round_trip(
    before: Sequencer,
    after: Sequencer,
    instrument: int,
    step: int,
    enabled: bool,
)
    requires
        before.wf(),
        0 <= instrument < SEQ_TRACKS && 0 <= step < SEQ_STEPS ==> after.patterns@
            == before.patterns@.update(instrument * 16 + step, enabled),
        !(0 <= instrument < SEQ_TRACKS && 0 <= step < SEQ_STEPS) ==> after.patterns@
            == before.patterns@,
    ensures
        0 <= instrument < SEQ_TRACKS && 0 <= step < SEQ_STEPS ==> after.spec_get_step(
            instrument,
            step,
        ) == enabled,
        !(0 <= instrument < SEQ_TRACKS && 0 <= step < SEQ_STEPS) ==> after.spec_get_step(
            instrument,
            step,
        ) == false,
        forall|i2: int, s2: int|
            0 <= i2 < SEQ_TRACKS && 0 <= s2 < SEQ_STEPS && !(i2 == instrument && s2 == step)
                ==> after.spec_get_step(i2, s2) == before.spec_get_step(i2, s2),
{
    if 0 <= instrument < SEQ_TRACKS && 0 <= step < SEQ_STEPS {
        assert(0 <= instrument * 16 + step < 64) by (nonlinear_arith)
            requires
                0 <= instrument < 4,
                0 <= step < 16,
        ;
        assert forall|i2: int, s2: int|
            0 <= i2 < SEQ_TRACKS && 0 <= s2 < SEQ_STEPS && !(i2 == instrument && s2
                == step) implies after.spec_get_step(i2, s2) == before.spec_get_step(i2, s2) by {
            assert(i2 * 16 + s2 != instrument * 16 + step) by (nonlinear_arith)
                requires
                    0 <= i2 < 4,
                    0 <= s2 < 16,
                    0 <= instrument < 4,
                    0 <= step < 16,
                    !(i2 == instrument && s2 == step),
            ;
            assert(0 <= i2 * 16 + s2 < 64) by (nonlinear_arith)
                requires
                    0 <= i2 < 4,
                    0 <= s2 < 16,
            ;
        }
    }
}

/// The sum of a sequence of samples.
pub open spec fn spec_sum(s: Seq<int>) -> int
    decreases s.len(),
{
    if s.len() == 0 {
        0
    } else {
        spec_sum(s.drop_last()) + s.last()
    }
}

/// A brick-wall limiter: an unconditional symmetric hard clip to
/// `[-threshold, threshold]`.
pub struct BrickWallLimiter {
    pub threshold: i64,
}

impl BrickWallLimiter {
    /// The ceiling is non-negative and representable.
    pub open spec fn wf(self) -> bool {
        0 <= self.threshold <= Q_LIMIT
    }

    /// A limiter with the given ceiling, clamped to `[0, Q_LIMIT]`.
    pub fn new(threshold: i64) -> (r: BrickWallLimiter)
        ensures
            r.wf(),
            r.threshold == spec_clamp(threshold as int, 0, Q_LIMIT as int),
    {
        BrickWallLimiter { threshold: clamp_i64(threshold, 0, Q_LIMIT) }
    }

    /// Hard-clips the input into `[-threshold, threshold]`: the result never
    /// leaves that interval, and any input already inside it passes through
    /// unchanged.
    pub fn process(&self, input: i64) -> (r: i64)
        requires
            self.wf(),
        ensures
            r == spec_clamp(input as int, -self.threshold as int, self.threshold as int),
            -self.threshold <= r <= self.threshold,
            -self.threshold <= input <= self.threshold ==> r == input,
    {
        if input > self.threshold {
            self.threshold
        } else if input < -self.threshold {
            -self.threshold
        } else {
            input
        }
    }
}

/// The stage: the owned voices, one sequencer, and the dynamics chain. Its
/// `tick` is the single real-time entry point.
pub struct Stage {
    pub sample_rate: u32,
    pub instruments: Vec<Oscillator>,
    pub limiter: BrickWallLimiter,
    pub sequencer: Sequencer,
    pub compressor: Compressor,
}

impl Stage {
    /// Every owned component is well formed, every voice runs at the
    /// stage's sample rate, and the voice count stays within the fixed
    /// capacity.
    pub open spec fn wf(self) -> bool {
        &&& SR_MIN <= self.sample_rate <= SR_MAX
        &&& self.instruments@.len() <= MAX_INSTRUMENTS
        &&& forall|i: int|
            0 <= i < self.instruments@.len() ==> (#[trigger] self.instruments@[i]).wf()
                && self.instruments@[i].sample_rate == self.sample_rate
        &&& self.limiter.wf()
        &&& self.sequencer.wf()
        &&& self.compressor.wf()
    }

    /// Whether the voice at `j` is fired by this tick: the sequencer is
    /// playing, a step boundary is due, and the voice's cell is set at the
    /// newly advanced step.
    pub open spec fn spec_voice_triggered(self, j: int, t: int) -> bool {
        self.sequencer.is_playing && self.sequencer.spec_due(t) && self.sequencer.spec_get_step(
            j,
            self.sequencer.spec_next_step(),
        )
    }

    /// The state of the voice at `j` at the moment it is ticked: retriggered
    /// at `t` when it is fired this call, untouched otherwise.
    pub open spec fn spec_pre_tick_voice(self, j: int, t: u64) -> Oscillator {
        let v = self.instruments@[j];
        if self.spec_voice_triggered(j, t as int) {
            Oscillator {
                envelope: Envelope {
                    current_time: 0u64,
                    is_active: true,
                    trigger_time: t,
                    ..v.envelope
                },
                ..v
            }
        } else {
            v
        }
    }

    /// The per-voice samples `vs` of one tick at `t`: one for each owned
    /// voice, inside the raw oscillator bound, exactly the voice's
    /// `spec_tick_sample` wherever its waveform is deterministic, and zero
    /// for a disabled voice; only the noise waveforms are left to the draw.
    pub open spec fn spec_voice_samples_ok(self, t: u64, vs: Seq<int>) -> bool {
        &&& vs.len() == self.instruments@.len()
        &&& forall|j: int| 0 <= j < vs.len() ==> -OSC_RAW_BOUND <= #[trigger] vs[j] <= OSC_RAW_BOUND
        &&& forall|j: int|
            0 <= j < vs.len() && self.spec_pre_tick_voice(j, t).enabled && self.spec_pre_tick_voice(
                j,
                t,
            ).spec_deterministic() ==> #[trigger] vs[j] == self.spec_pre_tick_voice(
                j,
                t,
            ).spec_tick_sample(t as int)
        &&& forall|j: int|
            0 <= j < vs.len() && !self.spec_pre_tick_voice(j, t).enabled ==> #[trigger] vs[j] == 0
    }

    /// What one tick returns and how the dynamics chain moves: for some
    /// per-voice samples as `spec_voice_samples_ok` describes, the result is
    /// their sum through the compressor, hard-clipped at the limiter
    /// ceiling, and the follower advances on that same sum.
    pub open spec fn spec_tick_output_ok(self, post: Stage, t: u64, r: i64) -> bool {
        exists|vs: Seq<int>|
            {
                &&& #[trigger] self.spec_voice_samples_ok(t, vs)
                &&& r == spec_clamp(
                    self.compressor.spec_process(spec_sum(vs)),
                    -(self.limiter.threshold as int),
                    self.limiter.threshold as int,
                )
                &&& self.compressor.enabled ==> post.compressor.envelope_follower
                    == self.compressor.spec_follower_next(
                    Compressor::spec_input_db(
                        if spec_sum(vs) >= 0 {
                            spec_sum(vs)
                        } else {
                            -spec_sum(vs)
                        },
                    ),
                )
                &&& !self.compressor.enabled ==> post.compressor == self.compressor
            }
    }

    /// A fresh stage: no voices, the limiter ceiling at one full-scale unit,
    /// a stopped sequencer, a disabled compressor.
    pub fn new(sample_rate: u32) -> (r: Stage)
        ensures
            r.wf(),
            r.instruments@.len() == 0,
            r.limiter.threshold == SCALE,
            !r.sequencer.is_playing,
            !r.compressor.enabled,
            r.sample_rate == spec_clamp(sample_rate as int, SR_MIN as int, SR_MAX as int),
    {
        let sr: u32 = if sample_rate < SR_MIN {
            SR_MIN
        } else if sample_rate > SR_MAX {
            SR_MAX
        } else {
            sample_rate
        };
        Stage {
            sample_rate: sr,
            instruments: Vec::new(),
            limiter: BrickWallLimiter::new(SCALE),
            sequencer: Sequencer::new(),
            compressor: Compressor::new(sr),
        }
    }

    /// Adopts a voice, retuning it to the stage's sample rate (its phase is
    /// wrapped to stay valid). Beyond the fixed capacity the call is
    /// ignored.
    pub fn add(&mut self, instrument: Oscillator)
        requires
            old(self).wf(),
            instrument.wf(),
        ensures
            final(self).wf(),
            old(self).instruments@.len() < MAX_INSTRUMENTS ==> final(self).instruments@.len()
                == old(self).instruments@.len() + 1 && final(self).instruments@.last() == (Oscillator {
                sample_rate: old(self).sample_rate,
                current_sample_index: (instrument.current_sample_index as int % (
                old(self).sample_rate as int)) as u32,
                ..instrument
            }),
            old(self).instruments@.len() >= MAX_INSTRUMENTS ==> *final(self) == *old(self),
            *final(self) == (Stage { instruments: final(self).instruments, ..*old(self) }),
            forall|i: int|
                0 <= i < old(self).instruments@.len() ==> final(self).instruments@[i] == old(self).instruments@[i],
    {
        if self.instruments.len() < MAX_INSTRUMENTS {
            let mut inst = instrument;
            inst.sample_rate = self.sample_rate;
            inst.current_sample_index = inst.current_sample_index % self.sample_rate;
            self.instruments.push(inst);
        }
    }

    /// One output sample at absolute time `current_time`. While playing and
    /// a step boundary is due, the sequencer advances exactly one step and
    /// the voices whose cell is set at the newly advanced step are
    /// triggered. Every voice is then ticked exactly once with this time;
    /// the samples — exact for deterministic waveforms, bounded for the
    /// noise ones — are summed, compressed, and hard-clipped, so the result
    /// never leaves `[-threshold, threshold]`.
    pub fn tick(&mut self, current_time: u64) -> (r: i64)
        requires
            old(self).wf(),
        ensures
            final(self).wf(),
            -final(self).limiter.threshold <= r <= final(self).limiter.threshold,
            final(self).sample_rate == old(self).sample_rate,
            final(self).limiter == old(self).limiter,
            final(self).compressor == (Compressor {
                envelope_follower: final(self).compressor.envelope_follower,
                ..old(self).compressor
            }),
            final(self).instruments@.len() == old(self).instruments@.len(),
            final(self).sequencer.patterns@ == old(self).sequencer.patterns@,
            final(self).sequencer.bpm == old(self).sequencer.bpm,
            final(self).sequencer.step_interval == old(self).sequencer.step_interval,
            final(self).sequencer.is_playing == old(self).sequencer.is_playing,
            old(self).sequencer.is_playing && old(self).sequencer.spec_due(current_time as int)
                ==> final(self).sequencer.current_step == old(self).sequencer.spec_next_step()
                && final(self).sequencer.last_step_time == current_time,
            !(old(self).sequencer.is_playing && old(self).sequencer.spec_due(current_time as int))
                ==> final(self).sequencer.current_step == old(self).sequencer.current_step
                && final(self).sequencer.last_step_time == old(self).sequencer.last_step_time,
            forall|j: int|
                0 <= j < old(self).instruments@.len() ==> spec_ticked_voice_ok(
                    old(self).spec_pre_tick_voice(j, current_time),
                    #[trigger] final(self).instruments@[j],
                    current_time as int,
                ),
            forall|j: int|
                0 <= j < old(self).instruments@.len() && old(self).spec_voice_triggered(
                    j,
                    current_time as int,
                ) ==> (#[trigger] final(self).instruments@[j]).envelope.trigger_time
                    == current_time,
            old(self).spec_tick_output_ok(*final(self), current_time, r),
    {
        if self.sequencer.is_playing {
            self.sequencer.update(current_time);
            if self.sequencer.should_trigger_step(current_time) {
                self.sequencer.last_step_time = current_time;
                self.sequencer.advance_step();
                let current_step: usize = self.sequencer.current_step;
                let mut idx: usize = 0;
                while idx < SEQ_TRACKS
                    invariant
                        old(self).wf(),
                        old(self).sequencer.is_playing,
                        old(self).sequencer.spec_due(current_time as int),
                        self.sequencer == (Sequencer {
                            current_step,
                            last_step_time: current_time,
                            ..old(self).sequencer
                        }),
                        self.sequencer.wf(),
                        current_step == old(self).sequencer.spec_next_step(),
                        self.limiter == old(self).limiter,
                        self.compressor == old(self).compressor,
                        self.sample_rate == old(self).sample_rate,
                        self.instruments@.len() == old(self).instruments@.len(),
                        idx <= SEQ_TRACKS,
                        forall|i: int|
                            0 <= i < self.instruments@.len() ==> (
                            #[trigger] self.instruments@[i]).wf()
                                && self.instruments@[i].sample_rate == self.sample_rate,
                        forall|i: int|
                            0 <= i < self.instruments@.len() && i < idx
                                && old(self).sequencer.spec_get_step(
                                i,
                                current_step as int,
                            ) ==> #[trigger] self.instruments@[i] == (Oscillator {
                                envelope: Envelope {
                                    current_time: 0u64,
                                    is_active: true,
                                    trigger_time: current_time,
                                    ..old(self).instruments@[i].envelope
                                },
                                ..old(self).instruments@[i]
                            }),
                        forall|i: int|
                            0 <= i < self.instruments@.len() && !(i < idx
                                && old(self).sequencer.spec_get_step(i, current_step as int))
                                ==> #[trigger] self.instruments@[i] == old(self).instruments@[i],
                    decreases SEQ_TRACKS - idx,
                {
                    if self.sequencer.get_step(idx, current_step) && idx < self.instruments.len() {
                        self.instruments[idx].trigger(current_time);
                    }
                    idx = idx + 1;
                }
            }
        }
        proof {
            assert forall|j: int| 0 <= j < self.instruments@.len() implies self.instruments@[j]
                == old(self).spec_pre_tick_voice(j, current_time) by {
                if old(self).spec_voice_triggered(j, current_time as int) {
                    assert(0 <= j < SEQ_TRACKS);
                }
            }
        }
        let ghost pre_sum = *self;
        let ghost mut vs: Seq<int> = Seq::empty();
        let mut output: i64 = 0;
        let n: usize = self.instruments.len();
        let mut i: usize = 0;
        while i < n
            invariant
                i <= n,
                n == self.instruments@.len(),
                n == pre_sum.instruments@.len(),
                n == old(self).instruments@.len(),
                n <= MAX_INSTRUMENTS,
                vs.len() == i as int,
                output == spec_sum(vs),
                self.sequencer == pre_sum.sequencer,
                self.limiter == pre_sum.limiter,
                self.compressor == pre_sum.compressor,
                self.sample_rate == pre_sum.sample_rate,
                pre_sum.limiter.wf(),
                pre_sum.sequencer.wf(),
                pre_sum.compressor.wf(),
                SR_MIN <= self.sample_rate <= SR_MAX,
                -6_553_600_000 * (i as int) <= output <= 6_553_600_000 * (i as int),
                forall|j: int|
                    0 <= j < n ==> #[trigger] pre_sum.instruments@[j] == old(
                        self,
                    ).spec_pre_tick_voice(j, current_time),
                forall|j: int|
                    0 <= j < n ==> (#[trigger] self.instruments@[j]).wf()
                        && self.instruments@[j].sample_rate == self.sample_rate,
                forall|j: int|
                    0 <= j < i ==> -OSC_RAW_BOUND <= #[trigger] vs[j] <= OSC_RAW_BOUND,
                forall|j: int|
                    0 <= j < i && pre_sum.instruments@[j].enabled
                        && pre_sum.instruments@[j].spec_deterministic() ==> #[trigger] vs[j]
                        == pre_sum.instruments@[j].spec_tick_sample(current_time as int),
                forall|j: int|
                    0 <= j < i && !pre_sum.instruments@[j].enabled ==> #[trigger] vs[j] == 0,
                forall|j: int|
                    0 <= j < i ==> spec_ticked_voice_ok(
                        pre_sum.instruments@[j],
                        #[trigger] self.instruments@[j],
                        current_time as int,
                    ),
                forall|j: int|
                    i <= j < n ==> #[trigger] self.instruments@[j] == pre_sum.instruments@[j],
            decreases n - i,
        {
            let s: i64 = self.instruments[i].tick(current_time);
            proof {
                assert(OSC_RAW_BOUND == 6_553_600_000);
                let prev = vs;
                vs = vs.push(s as int);
                assert(vs.drop_last() =~= prev);
            }
            output = output + s;
            i = i + 1;
        }
        let compressed: i64 = self.compressor.process(output);
        let out: i64 = self.limiter.process(compressed);
        proof {
            assert(old(self).spec_voice_samples_ok(current_time, vs));
        }
        out
    }

    /// Triggers every voice at `time`.
    pub fn trigger_all(&mut self, time: u64)
        requires
            old(self).wf(),
        ensures
            final(self).wf(),
            final(self).instruments@.len() == old(self).instruments@.len(),
            *final(self) == (Stage { instruments: final(self).instruments, ..*old(self) }),
            forall|i: int|
                0 <= i < final(self).instruments@.len() ==> (
                #[trigger] final(self).instruments@[i]).envelope.is_active && final(self).instruments@[i].envelope.trigger_time == time,
    {
        let n: usize = self.instruments.len();
        let mut i: usize = 0;
        while i < n
            invariant
                i <= n,
                n == self.instruments@.len(),
                self.sequencer == old(self).sequencer,
                self.limiter == old(self).limiter,
                self.compressor == old(self).compressor,
                self.sample_rate == old(self).sample_rate,
                old(self).wf(),
                forall|j: int|
                    0 <= j < n ==> (#[trigger] self.instruments@[j]).wf()
                        && self.instruments@[j].sample_rate == self.sample_rate,
                forall|j: int|
                    0 <= j < i ==> (#[trigger] self.instruments@[j]).envelope.is_active
                        && self.instruments@[j].envelope.trigger_time == time,
            decreases n - i,
        {
            self.instruments[i].trigger(time);
            i = i + 1;
        }
    }

    /// Triggers the voice at `index`; out of range, a no-op.
    pub fn trigger_instrument(&mut self, index: usize, time: u64)
        requires
            old(self).wf(),
        ensures
            final(self).wf(),
            final(self).instruments@.len() == old(self).instruments@.len(),
            *final(self) == (Stage { instruments: final(self).instruments, ..*old(self) }),
            index < old(self).instruments@.len() ==> (#[trigger] final(self).instruments@[index as int]).envelope.is_active && final(self).instruments@[index as int].envelope.trigger_time == time,
            index >= old(self).instruments@.len() ==> *final(self) == *old(self),
            forall|i: int|
                0 <= i < old(self).instruments@.len() && i != index ==> final(self).instruments@[i] == old(self).instruments@[i],
    {
        if index < self.instruments.len() {
            self.instruments[index].trigger(time);
        }
    }

    /// Sets the volume of the voice at `index`, clamped; out of range, a
    /// no-op.
    pub fn set_instrument_volume(&mut self, index: usize, volume: i64)
        requires
            old(self).wf(),
        ensures
            final(self).wf(),
            *final(self) == (Stage { instruments: final(self).instruments, ..*old(self) }),
            final(self).instruments@.len() == old(self).instruments@.len(),
            index < old(self).instruments@.len() ==> (#[trigger] final(self).instruments@[index as int]).volume == spec_clamp(volume as int, 0, SCALE as int),
            index >= old(self).instruments@.len() ==> *final(self) == *old(self),
            forall|i: int|
                0 <= i < old(self).instruments@.len() && i != index ==> final(self).instruments@[i] == old(self).instruments@[i],
    {
        if index < self.instruments.len() {
            self.instruments[index].set_volume(volume);
        }
    }

    /// The volume of the voice at `index`, or zero out of range.
    pub fn get_instrument_volume(&self, index: usize) -> (r: i64)
        ensures
            index < self.instruments@.len() ==> r == self.instruments@[index as int].volume,
            index >= self.instruments@.len() ==> r == 0,
    {
        if index < self.instruments.len() {
            self.instruments[index].volume
        } else {
            0
        }
    }

    /// Forwards a release to the voice at `index`; the envelope's release
    /// tail is part of its shape, so nothing moves.
    pub fn release_instrument(&mut self, index: usize, time: u64)
        requires
            old(self).wf(),
        ensures
            final(self).wf(),
            *final(self) == (Stage { instruments: final(self).instruments, ..*old(self) }),
            final(self).instruments@.len() == old(self).instruments@.len(),
            forall|i: int|
                0 <= i < old(self).instruments@.len() ==> final(self).instruments@[i] == old(self).instruments@[i],
    {
        if index < self.instruments.len() {
            self.instruments[index].release(time);
        }
    }

    /// Forwards a release to every voice; nothing moves.
    pub fn release_all(&mut self, time: u64)
        requires
            old(self).wf(),
        ensures
            final(self).wf(),
            final(self).instruments@.len() == old(self).instruments@.len(),
            *final(self) == (Stage { instruments: final(self).instruments, ..*old(self) }),
            forall|i: int|
                0 <= i < old(self).instruments@.len() ==> final(self).instruments@[i] == old(self).instruments@[i],
    {
        let n: usize = self.instruments.len();
        let mut i: usize = 0;
        while i < n
            invariant
                i <= n,
                n == self.instruments@.len(),
                self.sequencer == old(self).sequencer,
                self.limiter == old(self).limiter,
                self.compressor == old(self).compressor,
                self.sample_rate == old(self).sample_rate,
                forall|j: int|
                    0 <= j < n ==> #[trigger] self.instruments@[j] == old(self).instruments@[j],
            decreases n - i,
        {
            self.instruments[i].release(time);
            i = i + 1;
        }
    }

    /// Replaces the envelope settings of the voice at `index`; out of
    /// range, a no-op.
    pub fn set_instrument_adsr(&mut self, index: usize, config: ADSRConfig)
        requires
            old(self).wf(),
            config.wf(),
        ensures
            final(self).wf(),
            *final(self) == (Stage { instruments: final(self).instruments, ..*old(self) }),
            final(self).instruments@.len() == old(self).instruments@.len(),
            index < old(self).instruments@.len() ==> (#[trigger] final(self).instruments@[index as int]).envelope.config() == config,
            index >= old(self).instruments@.len() ==> *final(self) == *old(self),
            forall|i: int|
                0 <= i < old(self).instruments@.len() && i != index ==> final(self).instruments@[i] == old(self).instruments@[i],
    {
        if index < self.instruments.len() {
            self.instruments[index].set_adsr(config);
        }
    }

    /// Sets the frequency (millihertz, clamped into the valid range) of the
    /// voice at `index`; out of range, a no-op.
    pub fn set_instrument_frequency(&mut self, index: usize, frequency_mhz: u64)
        requires
            old(self).wf(),
        ensures
            final(self).wf(),
            *final(self) == (Stage { instruments: final(self).instruments, ..*old(self) }),
            final(self).instruments@.len() == old(self).instruments@.len(),
            index < old(self).instruments@.len() ==> (#[trigger] final(self).instruments@[index as int]).frequency_mhz == spec_clamp(
                frequency_mhz as int,
                FREQ_MIN as int,
                FREQ_MAX as int,
            ),
            index >= old(self).instruments@.len() ==> *final(self) == *old(self),
            forall|i: int|
                0 <= i < old(self).instruments@.len() && i != index ==> final(self).instruments@[i] == old(self).instruments@[i],
    {
        if index < self.instruments.len() {
            self.instruments[index].frequency_mhz = crate::fixed::clamp_u64(
                frequency_mhz,
                FREQ_MIN,
                FREQ_MAX,
            );
        }
    }

    /// The frequency (millihertz) of the voice at `index`, or zero out of
    /// range.
    pub fn get_instrument_frequency(&self, index: usize) -> (r: u64)
        ensures
            index < self.instruments@.len() ==> r == self.instruments@[index as int].frequency_mhz,
            index >= self.instruments@.len() ==> r == 0,
    {
        if index < self.instruments.len() {
            self.instruments[index].frequency_mhz
        } else {
            0
        }
    }

    /// Sets the waveform of the voice at `index`; out of range, a no-op.
    pub fn set_instrument_waveform(&mut self, index: usize, waveform: Waveform)
        requires
            old(self).wf(),
        ensures
            final(self).wf(),
            *final(self) == (Stage { instruments: final(self).instruments, ..*old(self) }),
            final(self).instruments@.len() == old(self).instruments@.len(),
            index < old(self).instruments@.len() ==> (#[trigger] final(self).instruments@[index as int]).waveform == waveform,
            index >= old(self).instruments@.len() ==> *final(self) == *old(self),
            forall|i: int|
                0 <= i < old(self).instruments@.len() && i != index ==> final(self).instruments@[i] == old(self).instruments@[i],
    {
        if index < self.instruments.len() {
            self.instruments[index].waveform = waveform;
        }
    }

    /// The waveform of the voice at `index`, or the sine default out of
    /// range.
    pub fn get_instrument_waveform(&self, index: usize) -> (r: Waveform)
        ensures
            index < self.instruments@.len() ==> r == self.instruments@[index as int].waveform,
            index >= self.instruments@.len() ==> r == Waveform::Sine,
    {
        if index < self.instruments.len() {
            self.instruments[index].waveform
        } else {
            Waveform::Sine
        }
    }

    /// Sets the ring-modulator frequency of the voice at `index`; out of
    /// range, a no-op.
    pub fn set_instrument_modulator_frequency(&mut self, index: usize, frequency_mhz: u64)
        requires
            old(self).wf(),
        ensures
            final(self).wf(),
            *final(self) == (Stage { instruments: final(self).instruments, ..*old(self) }),
            final(self).instruments@.len() == old(self).instruments@.len(),
            index < old(self).instruments@.len() ==> (#[trigger] final(self).instruments@[index as int]).modulator_frequency_mhz == spec_clamp(
                frequency_mhz as int,
                crate::oscillator::MOD_FREQ_MIN as int,
                FREQ_MAX as int,
            ),
            index >= old(self).instruments@.len() ==> *final(self) == *old(self),
            forall|i: int|
                0 <= i < old(self).instruments@.len() && i != index ==> final(self).instruments@[i] == old(self).instruments@[i],
    {
        if index < self.instruments.len() {
            self.instruments[index].set_modulator_frequency(frequency_mhz);
        }
    }

    /// The ring-modulator frequency of the voice at `index`, or zero out of
    /// range.
    pub fn get_instrument_modulator_frequency(&self, index: usize) -> (r: u64)
        ensures
            index < self.instruments@.len() ==> r == self.instruments@[
                index as int
            ].modulator_frequency_mhz,
            index >= self.instruments@.len() ==> r == 0,
    {
        if index < self.instruments.len() {
            self.instruments[index].get_modulator_frequency()
        } else {
            0
        }
    }

    /// Enables or disables the voice at `index`; out of range, a no-op.
    pub fn set_instrument_enabled(&mut self, index: usize, enabled: bool)
        requires
            old(self).wf(),
        ensures
            final(self).wf(),
            *final(self) == (Stage { instruments: final(self).instruments, ..*old(self) }),
            final(self).instruments@.len() == old(self).instruments@.len(),
            index < old(self).instruments@.len() ==> (#[trigger] final(self).instruments@[index as int]).enabled == enabled,
            index >= old(self).instruments@.len() ==> *final(self) == *old(self),
            forall|i: int|
                0 <= i < old(self).instruments@.len() && i != index ==> final(self).instruments@[i] == old(self).instruments@[i],
    {
        if index < self.instruments.len() {
            self.instruments[index].set_enabled(enabled);
        }
    }

    /// Whether the voice at `index` is enabled; false out of range.
    pub fn is_instrument_enabled(&self, index: usize) -> (r: bool)
        ensures
            index < self.instruments@.len() ==> r == self.instruments@[index as int].enabled,
            index >= self.instruments@.len() ==> r == false,
    {
        if index < self.instruments.len() {
            self.instruments[index].is_enabled()
        } else {
            false
        }
    }

    /// Sets the limiter ceiling, clamped to `[0, Q_LIMIT]`.
    pub fn set_limiter_threshold(&mut self, threshold: i64)
        ensures
            final(self).limiter.threshold == spec_clamp(threshold as int, 0, Q_LIMIT as int),
            *final(self) == (Stage { limiter: final(self).limiter, ..*old(self) }),
    {
        self.limiter = BrickWallLimiter::new(threshold);
    }

    /// The limiter ceiling.
    pub fn get_limiter_threshold(&self) -> (r: i64)
        ensures
            r == self.limiter.threshold,
    {
        self.limiter.threshold
    }

    /// Starts the sequencer.
    pub fn sequencer_play(&mut self)
        ensures
            final(self).sequencer.is_playing,
            *final(self) == (Stage { sequencer: final(self).sequencer, ..*old(self) }),
            final(self).sequencer == (Sequencer { is_playing: true, ..old(self).sequencer }),
    {
        self.sequencer.play();
    }

    /// Stops the sequencer.
    pub fn sequencer_stop(&mut self)
        ensures
            !final(self).sequencer.is_playing,
            *final(self) == (Stage { sequencer: final(self).sequencer, ..*old(self) }),
            final(self).sequencer == (Sequencer { is_playing: false, ..old(self).sequencer }),
    {
        self.sequencer.stop();
    }

    /// Returns the sequencer to step zero.
    pub fn sequencer_reset(&mut self)
        ensures
            final(self).sequencer.current_step == 0,
            *final(self) == (Stage { sequencer: final(self).sequencer, ..*old(self) }),
            final(self).sequencer == (Sequencer {
                current_step: 0usize,
                last_step_time: 0u64,
                ..old(self).sequencer
            }),
    {
        self.sequencer.reset();
    }

    /// Clears every sequencer cell.
    pub fn sequencer_clear_all(&mut self)
        ensures
            forall|i: int, s: int| !final(self).sequencer.spec_get_step(i, s),
            final(self).sequencer.patterns@.len() == SEQ_TRACKS * SEQ_STEPS,
            *final(self) == (Stage { sequencer: final(self).sequencer, ..*old(self) }),
            final(self).sequencer == (Sequencer {
                patterns: final(self).sequencer.patterns,
                ..old(self).sequencer
            }),
    {
        self.sequencer.clear_all();
    }

    /// Sets one sequencer cell; out of range, a no-op.
    pub fn sequencer_set_step(&mut self, instrument: usize, step: usize, enabled: bool)
        requires
            old(self).wf(),
        ensures
            final(self).wf(),
            *final(self) == (Stage { sequencer: final(self).sequencer, ..*old(self) }),
            final(self).sequencer == (Sequencer {
                patterns: final(self).sequencer.patterns,
                ..old(self).sequencer
            }),
            instrument < SEQ_TRACKS && step < SEQ_STEPS ==> final(self).sequencer.patterns@ == old(self).sequencer.patterns@.update(instrument * 16 + step, enabled),
            !(instrument < SEQ_TRACKS && step < SEQ_STEPS) ==> final(self).sequencer.patterns@
                == old(self).sequencer.patterns@,
    {
        self.sequencer.set_step(instrument, step, enabled);
    }

    /// Reads one sequencer cell; false out of range.
    pub fn sequencer_get_step(&self, instrument: usize, step: usize) -> (r: bool)
        requires
            self.wf(),
        ensures
            r == self.sequencer.spec_get_step(instrument as int, step as int),
    {
        self.sequencer.get_step(instrument, step)
    }

    /// Sets the tempo, clamped into the valid range.
    pub fn sequencer_set_bpm(&mut self, bpm: u32)
        requires
            old(self).wf(),
        ensures
            final(self).wf(),
            final(self).sequencer.bpm == spec_clamp(bpm as int, BPM_MIN as int, BPM_MAX as int),
            *final(self) == (Stage { sequencer: final(self).sequencer, ..*old(self) }),
    {
        self.sequencer.set_bpm(bpm);
    }

    /// The tempo in beats per minute.
    pub fn sequencer_get_bpm(&self) -> (r: u32)
        ensures
            r == self.sequencer.bpm,
    {
        self.sequencer.bpm
    }

    /// The current step, in `[0, SEQ_STEPS)`.
    pub fn sequencer_get_current_step(&self) -> (r: usize)
        ensures
            r == self.sequencer.current_step,
    {
        self.sequencer.current_step
    }

    /// Whether the sequencer is playing.
    pub fn sequencer_is_playing(&self) -> (r: bool)
        ensures
            r == self.sequencer.is_playing,
    {
        self.sequencer.is_playing
    }
}

} // verus!
