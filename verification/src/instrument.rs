//! A compositional instrument: any number of oscillators mixed together,
//! run through a chain of resonant high-pass filters, and shaped by one
//! master envelope and volume.

use vstd::prelude::*;

use crate::envelope::{ADSRConfig, Envelope};
use crate::filters::{spec_biquad_out, ResonantHighpassFilter, FILTER_BOUND, Q_MAX, Q_MIN};
use crate::fixed::{clamp_i64, spec_clamp, SCALE};
use crate::oscillator::{Oscillator, FREQ_MAX, FREQ_MIN, OSC_RAW_BOUND, SR_MAX, SR_MIN};
use crate::stage::{spec_sum, MAX_INSTRUMENTS};
use crate::waveform::Waveform;

verus! {

/// The filter chain applied from position `k` on: each filter's biquad
/// step, in order, each read at the state it holds in `fs`.
pub open spec fn spec_chain_from(fs: Seq<ResonantHighpassFilter>, k: int, x: int) -> int
    decreases fs.len() - k,
    when 0 <= k <= fs.len()
{
    if k == fs.len() {
        x
    } else {
        spec_chain_from(
            fs,
            k + 1,
            spec_biquad_out(
                fs[k].coeffs,
                x,
                fs[k].x1 as int,
                fs[k].x2 as int,
                fs[k].y1 as int,
                fs[k].y2 as int,
            ),
        )
    }
}

/// The whole filter chain applied to `x`.
pub open spec fn spec_filter_chain(fs: Seq<ResonantHighpassFilter>, x: int) -> int {
    spec_chain_from(fs, 0, x)
}

/// A compositional instrument owning its oscillators and filter chain.
pub struct Instrument {
    pub sample_rate: u32,
    pub oscillators: Vec<Oscillator>,
    pub filters: Vec<ResonantHighpassFilter>,
    pub envelope: Envelope,
    pub volume: i64,
    pub enabled: bool,
    pub current_time: u64,
}

impl Instrument {
    /// Every owned component is well formed and runs at the instrument's
    /// rate; the component counts stay within the fixed capacity.
    pub open spec fn wf(self) -> bool {
        &&& SR_MIN <= self.sample_rate <= SR_MAX
        &&& self.oscillators@.len() <= MAX_INSTRUMENTS
        &&& self.filters@.len() <= MAX_INSTRUMENTS
        &&& forall|i: int|
            0 <= i < self.oscillators@.len() ==> (#[trigger] self.oscillators@[i]).wf()
                && self.oscillators@[i].sample_rate == self.sample_rate
        &&& forall|i: int|
            0 <= i < self.filters@.len() ==> (#[trigger] self.filters@[i]).wf()
                && self.filters@[i].sample_rate == self.sample_rate
        &&& self.envelope.wf()
        &&& 0 <= self.volume <= SCALE
    }

    /// The per-oscillator samples `vs` of one tick at `t`: one for each
    /// owned oscillator, inside the raw bound, exactly the oscillator's
    /// `spec_tick_sample` wherever its waveform is deterministic, and zero
    /// when it is disabled.
    pub open spec fn spec_osc_samples_ok(self, t: int, vs: Seq<int>) -> bool {
        &&& vs.len() == self.oscillators@.len()
        &&& forall|j: int| 0 <= j < vs.len() ==> -OSC_RAW_BOUND <= #[trigger] vs[j] <= OSC_RAW_BOUND
        &&& forall|j: int|
            0 <= j < vs.len() && self.oscillators@[j].enabled
                && self.oscillators@[j].spec_deterministic() ==> #[trigger] vs[j]
                == self.oscillators@[j].spec_tick_sample(t)
        &&& forall|j: int| 0 <= j < vs.len() && !self.oscillators@[j].enabled ==> #[trigger] vs[j] == 0
    }

    /// What one enabled tick returns: for some per-oscillator samples as
    /// `spec_osc_samples_ok` describes, their saturated sum through the
    /// filter chain in order, scaled by the master envelope and volume.
    pub open spec fn spec_tick_output_ok(self, t: int, r: i64) -> bool {
        exists|vs: Seq<int>|
            #[trigger] self.spec_osc_samples_ok(t, vs) && r == crate::fixed::spec_mul_q(
                crate::fixed::spec_mul_q(
                    spec_filter_chain(
                        self.filters@,
                        spec_clamp(spec_sum(vs), -FILTER_BOUND as int, FILTER_BOUND as int),
                    ),
                    self.envelope.spec_amplitude(t),
                ),
                self.volume as int,
            )
    }

    /// An empty instrument (sample rate clamped): no oscillators, no
    /// filters, the default envelope, full volume, enabled.
    pub fn new(sample_rate: u32) -> (r: Instrument)
        ensures
            r.wf(),
            r.oscillators@.len() == 0,
            r.filters@.len() == 0,
            r.enabled,
            r.volume == SCALE,
            !r.envelope.is_active,
    {
        let sr: u32 = if sample_rate < SR_MIN {
            SR_MIN
        } else if sample_rate > SR_MAX {
            SR_MAX
        } else {
            sample_rate
        };
        Instrument {
            sample_rate: sr,
            oscillators: Vec::new(),
            filters: Vec::new(),
            envelope: Envelope::new(),
            volume: SCALE,
            enabled: true,
            current_time: 0,
        }
    }

    /// Adds an oscillator at the given frequency and returns its index;
    /// beyond the fixed capacity nothing is added and the last index is
    /// returned.
    pub fn add_oscillator(&mut self, frequency_mhz: u64) -> (r: usize)
        requires
            old(self).wf(),
        ensures
            final(self).wf(),
            old(self).oscillators@.len() < MAX_INSTRUMENTS ==> final(self).oscillators@.len()
                == old(self).oscillators@.len() + 1 && r == old(self).oscillators@.len(),
            old(self).oscillators@.len() >= MAX_INSTRUMENTS ==> *final(self) == *old(self),
            *final(self) == (Instrument { oscillators: final(self).oscillators, ..*old(self) }),
            forall|i: int|
                0 <= i < old(self).oscillators@.len() ==> final(self).oscillators@[i] == old(self).oscillators@[i],
    {
        if self.oscillators.len() < MAX_INSTRUMENTS {
            let oscillator = Oscillator::new(self.sample_rate, frequency_mhz);
            self.oscillators.push(oscillator);
            self.oscillators.len() - 1
        } else {
            self.oscillators.len() - 1
        }
    }

    /// Adds a high-pass filter and returns its index; beyond the fixed
    /// capacity nothing is added and the last index is returned.
    pub fn add_filter(&mut self, cutoff_mhz: u64, resonance: i64) -> (r: usize)
        requires
            old(self).wf(),
        ensures
            final(self).wf(),
            old(self).filters@.len() < MAX_INSTRUMENTS ==> final(self).filters@.len() == old(self).filters@.len() + 1 && r == old(self).filters@.len(),
            old(self).filters@.len() >= MAX_INSTRUMENTS ==> *final(self) == *old(self),
            *final(self) == (Instrument { filters: final(self).filters, ..*old(self) }),
            forall|i: int|
                0 <= i < old(self).filters@.len() ==> final(self).filters@[i] == old(self).filters@[i],
    {
        if self.filters.len() < MAX_INSTRUMENTS {
            let filter = ResonantHighpassFilter::new(self.sample_rate, cutoff_mhz, resonance);
            self.filters.push(filter);
            self.filters.len() - 1
        } else {
            self.filters.len() - 1
        }
    }

    /// Replaces the master envelope settings, clamping each stage.
    pub fn set_envelope(&mut self, attack_us: u64, decay_us: u64, sustain: i64, release_us: u64)
        requires
            old(self).wf(),
        ensures
            final(self).wf(),
            final(self).envelope.config() == (ADSRConfig {
                attack_time: spec_clamp(
                    attack_us as int,
                    crate::envelope::MIN_STAGE_US as int,
                    crate::envelope::MAX_STAGE_US as int,
                ) as u64,
                decay_time: spec_clamp(
                    decay_us as int,
                    crate::envelope::MIN_STAGE_US as int,
                    crate::envelope::MAX_STAGE_US as int,
                ) as u64,
                sustain_level: spec_clamp(sustain as int, 0, SCALE as int) as i64,
                release_time: spec_clamp(
                    release_us as int,
                    crate::envelope::MIN_STAGE_US as int,
                    crate::envelope::MAX_STAGE_US as int,
                ) as u64,
            }),
            *final(self) == (Instrument { envelope: final(self).envelope, ..*old(self) }),
    {
        let config = ADSRConfig::new(attack_us, decay_us, sustain, release_us);
        self.envelope.set_config(config);
    }

    /// Sets the master volume, clamped into `[0, SCALE]`.
    pub fn set_volume(&mut self, volume: i64)
        requires
            old(self).wf(),
        ensures
            final(self).wf(),
            final(self).volume == spec_clamp(volume as int, 0, SCALE as int),
            *final(self) == (Instrument { volume: final(self).volume, ..*old(self) }),
    {
        self.volume = clamp_i64(volume, 0, SCALE);
    }

    /// The master volume.
    pub fn get_volume(&self) -> (r: i64)
        ensures
            r == self.volume,
    {
        self.volume
    }

    /// Sets the waveform of the oscillator at `index`; out of range, a
    /// no-op.
    pub fn set_oscillator_waveform(&mut self, index: usize, waveform: Waveform)
        requires
            old(self).wf(),
        ensures
            final(self).wf(),
            *final(self) == (Instrument { oscillators: final(self).oscillators, ..*old(self) }),
            final(self).oscillators@.len() == old(self).oscillators@.len(),
            index < old(self).oscillators@.len() ==> (#[trigger] final(self).oscillators@[index as int]).waveform == waveform,
            index >= old(self).oscillators@.len() ==> *final(self) == *old(self),
    {
        if index < self.oscillators.len() {
            self.oscillators[index].waveform = waveform;
        }
    }

    /// Sets the frequency (millihertz, clamped) of the oscillator at
    /// `index`; out of range, a no-op.
    pub fn set_oscillator_frequency(&mut self, index: usize, frequency_mhz: u64)
        requires
            old(self).wf(),
        ensures
            final(self).wf(),
            *final(self) == (Instrument { oscillators: final(self).oscillators, ..*old(self) }),
            final(self).oscillators@.len() == old(self).oscillators@.len(),
            index < old(self).oscillators@.len() ==> (#[trigger] final(self).oscillators@[index as int]).frequency_mhz == spec_clamp(
                frequency_mhz as int,
                FREQ_MIN as int,
                FREQ_MAX as int,
            ),
            index >= old(self).oscillators@.len() ==> *final(self) == *old(self),
    {
        if index < self.oscillators.len() {
            self.oscillators[index].frequency_mhz = crate::fixed::clamp_u64(
                frequency_mhz,
                FREQ_MIN,
                FREQ_MAX,
            );
        }
    }

    /// Sets the volume (clamped) of the oscillator at `index`; out of
    /// range, a no-op.
    pub fn set_oscillator_volume(&mut self, index: usize, volume: i64)
        requires
            old(self).wf(),
        ensures
            final(self).wf(),
            *final(self) == (Instrument { oscillators: final(self).oscillators, ..*old(self) }),
            final(self).oscillators@.len() == old(self).oscillators@.len(),
            index < old(self).oscillators@.len() ==> (#[trigger] final(self).oscillators@[index as int]).volume == spec_clamp(volume as int, 0, SCALE as int),
            index >= old(self).oscillators@.len() ==> *final(self) == *old(self),
    {
        if index < self.oscillators.len() {
            self.oscillators[index].set_volume(volume);
        }
    }

    /// Sets the cutoff (millihertz, clamped) of the filter at `index`; out
    /// of range, a no-op.
    pub fn set_filter_cutoff(&mut self, index: usize, cutoff_mhz: u64)
        requires
            old(self).wf(),
        ensures
            final(self).wf(),
            *final(self) == (Instrument { filters: final(self).filters, ..*old(self) }),
            final(self).filters@.len() == old(self).filters@.len(),
            index < old(self).filters@.len() ==> (#[trigger] final(self).filters@[index as int]).cutoff_mhz == spec_clamp(
                cutoff_mhz as int,
                FREQ_MIN as int,
                FREQ_MAX as int,
            ),
            index >= old(self).filters@.len() ==> *final(self) == *old(self),
    {
        if index < self.filters.len() {
            self.filters[index].set_cutoff_freq(cutoff_mhz);
        }
    }

    /// Sets the resonance (clamped) of the filter at `index`; out of
    /// range, a no-op.
    pub fn set_filter_resonance(&mut self, index: usize, resonance: i64)
        requires
            old(self).wf(),
        ensures
            final(self).wf(),
            *final(self) == (Instrument { filters: final(self).filters, ..*old(self) }),
            final(self).filters@.len() == old(self).filters@.len(),
            index < old(self).filters@.len() ==> (#[trigger] final(self).filters@[index as int]).resonance == spec_clamp(
                resonance as int,
                Q_MIN as int,
                Q_MAX as int,
            ),
            index >= old(self).filters@.len() ==> *final(self) == *old(self),
    {
        if index < self.filters.len() {
            self.filters[index].set_resonance(resonance);
        }
    }

    /// The number of oscillators.
    pub fn oscillator_count(&self) -> (r: usize)
        ensures
            r == self.oscillators@.len(),
    {
        self.oscillators.len()
    }

    /// The number of filters.
    pub fn filter_count(&self) -> (r: usize)
        ensures
            r == self.filters@.len(),
    {
        self.filters.len()
    }

    /// Enables or disables the instrument.
    pub fn set_enabled(&mut self, enabled: bool)
        ensures
            *final(self) == (Instrument { enabled, ..*old(self) }),
    {
        self.enabled = enabled;
    }

    /// Whether the instrument is enabled.
    pub fn is_enabled(&self) -> (r: bool)
        ensures
            r == self.enabled,
    {
        self.enabled
    }

    /// Triggers the instrument at `time`: the master envelope and every
    /// oscillator restart, and every filter's registers are cleared.
    pub fn trigger(&mut self, time: u64)
        requires
            old(self).wf(),
        ensures
            final(self).wf(),
            final(self).envelope.is_active,
            final(self).envelope.trigger_time == time,
            final(self).current_time == time,
            final(self).oscillators@.len() == old(self).oscillators@.len(),
            final(self).filters@.len() == old(self).filters@.len(),
            forall|i: int|
                0 <= i < final(self).oscillators@.len() ==> (#[trigger] final(self).oscillators@[i]).envelope.is_active && final(self).oscillators@[i].envelope.trigger_time == time,
            forall|i: int|
                0 <= i < final(self).filters@.len() ==> (#[trigger] final(self).filters@[i]).x1
                    == 0 && final(self).filters@[i].y1 == 0,
    {
        self.current_time = time;
        self.envelope.trigger(time);
        let n: usize = self.oscillators.len();
        let mut i: usize = 0;
        while i < n
            invariant
                i <= n,
                n == self.oscillators@.len(),
                old(self).wf(),
                self.sample_rate == old(self).sample_rate,
                self.filters == old(self).filters,
                self.volume == old(self).volume,
                self.envelope.wf(),
                self.envelope.is_active,
                self.envelope.trigger_time == time,
                self.current_time == time,
                forall|j: int|
                    0 <= j < n ==> (#[trigger] self.oscillators@[j]).wf()
                        && self.oscillators@[j].sample_rate == self.sample_rate,
                forall|j: int|
                    0 <= j < i ==> (#[trigger] self.oscillators@[j]).envelope.is_active
                        && self.oscillators@[j].envelope.trigger_time == time,
            decreases n - i,
        {
            self.oscillators[i].trigger(time);
            i = i + 1;
        }
        let m: usize = self.filters.len();
        let mut k: usize = 0;
        while k < m
            invariant
                k <= m,
                m == self.filters@.len(),
                old(self).wf(),
                self.sample_rate == old(self).sample_rate,
                self.volume == old(self).volume,
                0 <= self.volume <= SCALE,
                self.envelope.wf(),
                self.envelope.is_active,
                self.envelope.trigger_time == time,
                self.current_time == time,
                self.oscillators@.len() == old(self).oscillators@.len(),
                self.oscillators@.len() <= MAX_INSTRUMENTS,
                forall|j: int|
                    0 <= j < self.oscillators@.len() ==> (#[trigger] self.oscillators@[j]).wf()
                        && self.oscillators@[j].sample_rate == self.sample_rate
                        && self.oscillators@[j].envelope.is_active
                        && self.oscillators@[j].envelope.trigger_time == time,
                forall|j: int|
                    0 <= j < m ==> (#[trigger] self.filters@[j]).wf()
                        && self.filters@[j].sample_rate == self.sample_rate,
                forall|j: int|
                    0 <= j < k ==> (#[trigger] self.filters@[j]).x1 == 0 && self.filters@[j].y1
                        == 0,
            decreases m - k,
        {
            self.filters[k].reset();
            k = k + 1;
        }
    }

    /// Forwards a release to the master envelope and every oscillator;
    /// each release tail is baked into its shape, so nothing moves.
    pub fn release(&mut self, time: u64)
        requires
            old(self).wf(),
        ensures
            final(self).wf(),
            final(self).oscillators@.len() == old(self).oscillators@.len(),
            *final(self) == (Instrument { oscillators: final(self).oscillators, ..*old(self) }),
            forall|i: int|
                0 <= i < old(self).oscillators@.len() ==> final(self).oscillators@[i] == old(self).oscillators@[i],
    {
        self.envelope.release(time);
        let n: usize = self.oscillators.len();
        let mut i: usize = 0;
        while i < n
            invariant
                i <= n,
                n == self.oscillators@.len(),
                self.sample_rate == old(self).sample_rate,
                self.filters == old(self).filters,
                self.envelope == old(self).envelope,
                self.volume == old(self).volume,
                self.enabled == old(self).enabled,
                self.current_time == old(self).current_time,
                forall|j: int|
                    0 <= j < n ==> #[trigger] self.oscillators@[j] == old(self).oscillators@[j],
            decreases n - i,
        {
            self.oscillators[i].release(time);
            i = i + 1;
        }
    }

    /// Whether the instrument is sounding: enabled with a live master
    /// envelope.
    pub fn is_active(&self) -> (r: bool)
        ensures
            r == (self.enabled && self.envelope.is_active),
    {
        self.enabled && self.envelope.is_active
    }

    /// One output sample at absolute time `current_time`: the oscillators'
    /// sum (saturated into the filter range) pushed through the filter
    /// chain, then shaped by the master envelope and volume. Disabled:
    /// exactly zero, nothing moves.
    pub fn tick(&mut self, current_time: u64) -> (r: i64)
        requires
            old(self).wf(),
        ensures
            final(self).wf(),
            -FILTER_BOUND <= r <= FILTER_BOUND,
            !old(self).enabled ==> r == 0 && *final(self) == *old(self),
            final(self).oscillators@.len() == old(self).oscillators@.len(),
            final(self).filters@.len() == old(self).filters@.len(),
            final(self).volume == old(self).volume,
            final(self).enabled == old(self).enabled,
            final(self).sample_rate == old(self).sample_rate,
            old(self).enabled ==> final(self).envelope.config() == old(self).envelope.config()
                && final(self).envelope.is_active == old(self).envelope.spec_running(
                current_time as int,
            ),
            old(self).enabled ==> old(self).spec_tick_output_ok(current_time as int, r),
    {
        if !self.enabled {
            return 0;
        }
        self.current_time = current_time;
        let ghost mut vs: Seq<int> = Seq::empty();
        let mut output: i64 = 0;
        let n: usize = self.oscillators.len();
        let mut i: usize = 0;
        while i < n
            invariant
                i <= n,
                n == self.oscillators@.len(),
                n <= MAX_INSTRUMENTS,
                vs.len() == i as int,
                output == spec_sum(vs),
                self.sample_rate == old(self).sample_rate,
                self.filters == old(self).filters,
                self.envelope == old(self).envelope,
                self.volume == old(self).volume,
                self.enabled == old(self).enabled,
                old(self).wf(),
                SR_MIN <= self.sample_rate <= SR_MAX,
                -6_553_600_000 * (i as int) <= output <= 6_553_600_000 * (i as int),
                forall|j: int|
                    0 <= j < i ==> -OSC_RAW_BOUND <= #[trigger] vs[j] <= OSC_RAW_BOUND,
                forall|j: int|
                    0 <= j < i && old(self).oscillators@[j].enabled
                        && old(self).oscillators@[j].spec_deterministic() ==> #[trigger] vs[j]
                        == old(self).oscillators@[j].spec_tick_sample(current_time as int),
                forall|j: int|
                    0 <= j < i && !old(self).oscillators@[j].enabled ==> #[trigger] vs[j] == 0,
                forall|j: int|
                    i <= j < n ==> #[trigger] self.oscillators@[j] == old(self).oscillators@[j],
                forall|j: int|
                    0 <= j < n ==> (#[trigger] self.oscillators@[j]).wf()
                        && self.oscillators@[j].sample_rate == self.sample_rate,
            decreases n - i,
        {
            let s: i64 = self.oscillators[i].tick(current_time);
            proof {
                assert(OSC_RAW_BOUND == 6_553_600_000);
                let prev = vs;
                vs = vs.push(s as int);
                assert(vs.drop_last() =~= prev);
            }
            output = output + s;
            i = i + 1;
        }
        proof {
            assert(old(self).spec_osc_samples_ok(current_time as int, vs));
        }
        let mut filtered: i64 = clamp_i64(output, -FILTER_BOUND, FILTER_BOUND);
        let ghost x0 = filtered as int;
        let m: usize = self.filters.len();
        let mut k: usize = 0;
        while k < m
            invariant
                k <= m,
                m == self.filters@.len(),
                m == old(self).filters@.len(),
                self.sample_rate == old(self).sample_rate,
                self.envelope == old(self).envelope,
                self.volume == old(self).volume,
                self.enabled == old(self).enabled,
                self.oscillators@.len() == n,
                -FILTER_BOUND <= filtered <= FILTER_BOUND,
                spec_chain_from(old(self).filters@, k as int, filtered as int)
                    == spec_filter_chain(old(self).filters@, x0),
                forall|j: int|
                    k <= j < m ==> #[trigger] self.filters@[j] == old(self).filters@[j],
                forall|j: int|
                    0 <= j < n ==> (#[trigger] self.oscillators@[j]).wf()
                        && self.oscillators@[j].sample_rate == self.sample_rate,
                forall|j: int|
                    0 <= j < m ==> (#[trigger] self.filters@[j]).wf()
                        && self.filters@[j].sample_rate == self.sample_rate,
            decreases m - k,
        {
            let ghost before = filtered as int;
            filtered = self.filters[k].process(filtered);
            proof {
                assert(spec_chain_from(old(self).filters@, k as int, before) == spec_chain_from(
                    old(self).filters@,
                    k + 1,
                    filtered as int,
                ));
            }
            k = k + 1;
        }
        let amp: i64 = self.envelope.get_amplitude(current_time);
        let shaped: i64 = crate::fixed::mul_q(filtered, amp);
        proof {
            crate::fixed::lemma_mul_q_gain(filtered as int, amp as int, FILTER_BOUND as int);
        }
        let out: i64 = crate::fixed::mul_q(shaped, self.volume);
        proof {
            crate::fixed::lemma_mul_q_gain(shaped as int, self.volume as int, FILTER_BOUND as int);
        }
        out
    }
}

} // verus!
