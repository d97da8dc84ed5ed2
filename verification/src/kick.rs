//! Composite kick-drum voice: a sine sub oscillator, a triangle punch
//! oscillator, a noise click through a resonant high-pass, an FM snap for
//! the beater transient, a pitch envelope sweeping the oscillators
//! downward, and a swept output low-pass, all mixed, saturated and scaled.
//!
//! The voice retires only once every owned envelope and the FM generator
//! have independently finished: retirement is gated on the slowest
//! sub-component.

use vstd::prelude::*;

use crate::envelope::{ADSRConfig, Envelope, MAX_STAGE_US};
use crate::filters::{spec_biquad_out, ResonantHighpassFilter, ResonantLowpassFilter, FILTER_BOUND};
use crate::fixed::{
    clamp_i64, clamp_u64, mul_q, soft_clip_q, spec_clamp, spec_div_t, spec_mul_q, SCALE,
};
use crate::fm_oscillator::{spec_fm_sample, FMOscillator};
use crate::oscillator::{Oscillator, FREQ_MAX, FREQ_MIN, OSC_RAW_BOUND, SR_MAX, SR_MIN};
use crate::waveform::Waveform;

verus! {

/// Q16.16 ratio of semitone `s` above a reference pitch: `2^(s/12)`.
pub open spec fn spec_semitone_ratio(s: int) -> int {
    if s == 0 {
        65536
    } else if s == 1 {
        69433
    } else if s == 2 {
        73562
    } else if s == 3 {
        77936
    } else if s == 4 {
        82570
    } else if s == 5 {
        87480
    } else if s == 6 {
        92682
    } else if s == 7 {
        98193
    } else if s == 8 {
        104032
    } else if s == 9 {
        110218
    } else if s == 10 {
        116772
    } else {
        123716
    }
}

/// Frequency in millihertz of a MIDI note: 440 Hz at note 69, scaled by
/// the equal-tempered semitone ratio and whole octaves.
pub open spec fn spec_midi_to_hz(note: int) -> int {
    let n = note - 69;
    let o = n / 12;
    let s = n % 12;
    let base = 440_000 * spec_semitone_ratio(s) / 65536;
    let raw = if o >= 0 {
        base * (vstd::arithmetic::power2::pow2(o as nat) as int)
    } else {
        base / (vstd::arithmetic::power2::pow2((-o) as nat) as int)
    };
    spec_clamp(raw, 8_000, 13_300_000)
}

/// Exec twin of `spec_midi_to_hz` for the MIDI range.
pub fn midi_to_hz(note: u32) -> (r: u64)
    requires
        note <= 127,
    ensures
        r == spec_midi_to_hz(note as int),
        8_000 <= r <= 13_300_000,
{
    let n: i64 = (note as i64) - 69;
    let o: i64 = if n >= 0 {
        n / 12
    } else {
        -(((-n) + 11) / 12)
    };
    let s: i64 = n - 12 * o;
    proof {
        if n >= 0 {
            vstd::arithmetic::div_mod::lemma_fundamental_div_mod(n as int, 12);
            vstd::arithmetic::div_mod::lemma_mod_division_less_than_divisor(n as int, 12);
        } else {
            vstd::arithmetic::div_mod::lemma_fundamental_div_mod(-(n as int) + 11, 12);
            vstd::arithmetic::div_mod::lemma_mod_division_less_than_divisor(-(n as int) + 11, 12);
            vstd::arithmetic::div_mod::lemma_div_pos_is_pos(-(n as int) + 11, 12);
        }
        vstd::arithmetic::div_mod::lemma_fundamental_div_mod_converse(
            n as int,
            12,
            o as int,
            s as int,
        );
    }
    let ratio: i64 = if s == 0 {
        65536
    } else if s == 1 {
        69433
    } else if s == 2 {
        73562
    } else if s == 3 {
        77936
    } else if s == 4 {
        82570
    } else if s == 5 {
        87480
    } else if s == 6 {
        92682
    } else if s == 7 {
        98193
    } else if s == 8 {
        104032
    } else if s == 9 {
        110218
    } else if s == 10 {
        116772
    } else {
        123716
    };
    let base: u64 = 440_000 * (ratio as u64) / 65536;
    proof {
        vstd::arithmetic::div_mod::lemma_div_pos_is_pos(440_000 * (ratio as int), 65536);
        assert(440_000int * 65536int <= 440_000 * (ratio as int) <= 440_000int * 123_716int)
            by (nonlinear_arith)
            requires
                65536 <= ratio <= 123_716,
        ;
        vstd::arithmetic::div_mod::lemma_div_is_ordered(
            440_000int * 65536int,
            440_000 * (ratio as int),
            65536,
        );
        vstd::arithmetic::div_mod::lemma_div_is_ordered(
            440_000 * (ratio as int),
            440_000int * 123_716int,
            65536,
        );
        vstd::arithmetic::div_mod::lemma_div_by_multiple(440_000, 65536);
        assert(440_000int * 123_716int == 54_435_040_000int) by (nonlinear_arith);
        assert(54_435_040_000int == 65536 * 830_612 + 51_968) by (nonlinear_arith);
        vstd::arithmetic::div_mod::lemma_fundamental_div_mod_converse(
            54_435_040_000int,
            65536,
            830_612,
            51_968,
        );
        vstd::arithmetic::power2::lemma2_to64();
    }
    let raw: u64 = if o >= 0 {
        let p: u64 = crate::fixed::pow2_u64(o as u32);
        proof {
            assert(0 <= (base as int) * (p as int) <= 830_612int * 16int) by (nonlinear_arith)
                requires
                    0 < base <= 830_612,
                    0 < p <= 16,
            ;
        }
        base * p
    } else {
        let p: u64 = crate::fixed::pow2_u64((-o) as u32);
        proof {
            vstd::arithmetic::div_mod::lemma_div_pos_is_pos(base as int, p as int);
            vstd::arithmetic::div_mod::lemma_div_nonincreasing(base as int, p as int);
        }
        base / p
    };
    crate::fixed::clamp_u64(raw, 8_000, 13_300_000)
}

/// Parameters of one kick voice. Frequencies are millihertz, times
/// microseconds, amounts Q16.16 in `[0, SCALE]`, and the MIDI note, attack,
/// overdrive and filter-sweep knobs plain integers in their UI ranges.
#[derive(Clone, Copy, Debug, PartialEq, Eq, Structural)]
pub struct KickConfig {
    pub kick_frequency: u64,
    pub punch_amount: i64,
    pub sub_amount: i64,
    pub click_amount: i64,
    pub decay_time: u64,
    pub pitch_drop: i64,
    pub volume: i64,
    pub base_note: u32,
    pub pitch_env_amount: i64,
    pub attack_ms: u32,
    pub noise_freq_scale: i64,
    pub noise_env_depth: i64,
    pub overdrive: u32,
    pub phase_reset: bool,
    pub filter_sweep_amt: u32,
}

impl KickConfig {
    /// Every knob sits inside its accepted interval.
    pub open spec fn wf(self) -> bool {
        &&& 20_000 <= self.kick_frequency <= 200_000
        &&& 0 <= self.punch_amount <= SCALE
        &&& 0 <= self.sub_amount <= SCALE
        &&& 0 <= self.click_amount <= SCALE
        &&& 10_000 <= self.decay_time <= 5_000_000
        &&& 0 <= self.pitch_drop <= SCALE
        &&& 0 <= self.volume <= SCALE
        &&& self.base_note <= 127
        &&& 0 <= self.pitch_env_amount <= SCALE
        &&& 1 <= self.attack_ms <= 100
        &&& 0 <= self.noise_freq_scale <= SCALE
        &&& 0 <= self.noise_env_depth <= SCALE
        &&& 1 <= self.overdrive <= 100
        &&& 1 <= self.filter_sweep_amt <= 100
    }

    /// Builds a configuration, clamping every knob into its interval.
    pub fn new(
        kick_frequency: u64,
        punch_amount: i64,
        sub_amount: i64,
        click_amount: i64,
        decay_time: u64,
        pitch_drop: i64,
        volume: i64,
        base_note: u32,
        pitch_env_amount: i64,
        attack_ms: u32,
        noise_freq_scale: i64,
        noise_env_depth: i64,
        overdrive: u32,
        phase_reset: bool,
        filter_sweep_amt: u32,
    ) -> (r: KickConfig)
        ensures
            r.wf(),
            r.kick_frequency == spec_clamp(kick_frequency as int, 20_000, 200_000),
            r.punch_amount == spec_clamp(punch_amount as int, 0, SCALE as int),
            r.sub_amount == spec_clamp(sub_amount as int, 0, SCALE as int),
            r.click_amount == spec_clamp(click_amount as int, 0, SCALE as int),
            r.decay_time == spec_clamp(decay_time as int, 10_000, 5_000_000),
            r.pitch_drop == spec_clamp(pitch_drop as int, 0, SCALE as int),
            r.volume == spec_clamp(volume as int, 0, SCALE as int),
            r.base_note == spec_clamp(base_note as int, 0, 127),
            r.pitch_env_amount == spec_clamp(pitch_env_amount as int, 0, SCALE as int),
            r.attack_ms == spec_clamp(attack_ms as int, 1, 100),
            r.noise_freq_scale == spec_clamp(noise_freq_scale as int, 0, SCALE as int),
            r.noise_env_depth == spec_clamp(noise_env_depth as int, 0, SCALE as int),
            r.overdrive == spec_clamp(overdrive as int, 1, 100),
            r.phase_reset == phase_reset,
            r.filter_sweep_amt == spec_clamp(filter_sweep_amt as int, 1, 100),
    {
        KickConfig {
            kick_frequency: clamp_u64(kick_frequency, 20_000, 200_000),
            punch_amount: clamp_i64(punch_amount, 0, SCALE),
            sub_amount: clamp_i64(sub_amount, 0, SCALE),
            click_amount: clamp_i64(click_amount, 0, SCALE),
            decay_time: clamp_u64(decay_time, 10_000, 5_000_000),
            pitch_drop: clamp_i64(pitch_drop, 0, SCALE),
            volume: clamp_i64(volume, 0, SCALE),
            base_note: if base_note > 127 {
                127
            } else {
                base_note
            },
            pitch_env_amount: clamp_i64(pitch_env_amount, 0, SCALE),
            attack_ms: if attack_ms < 1 {
                1
            } else if attack_ms > 100 {
                100
            } else {
                attack_ms
            },
            noise_freq_scale: clamp_i64(noise_freq_scale, 0, SCALE),
            noise_env_depth: clamp_i64(noise_env_depth, 0, SCALE),
            overdrive: if overdrive < 1 {
                1
            } else if overdrive > 100 {
                100
            } else {
                overdrive
            },
            phase_reset,
            filter_sweep_amt: if filter_sweep_amt < 1 {
                1
            } else if filter_sweep_amt > 100 {
                100
            } else {
                filter_sweep_amt
            },
        }
    }

    /// The stock kick: 30 Hz fundamental, strong sub and punch, soft click.
    pub fn default() -> (r: KickConfig)
        ensures
            r.wf(),
    {
        KickConfig::new(
            30_000,
            52_429,
            52_429,
            13_107,
            280_000,
            13_107,
            52_429,
            36,
            32_768,
            10,
            32_768,
            32_768,
            20,
            false,
            50,
        )
    }

    /// A snappy kick with a hard pitch sweep.
    pub fn punchy() -> (r: KickConfig)
        ensures
            r.wf(),
    {
        KickConfig::new(
            60_000,
            58_982,
            39_322,
            26_214,
            600_000,
            45_875,
            55_706,
            40,
            52_429,
            5,
            39_322,
            45_875,
            40,
            true,
            70,
        )
    }

    /// A long, sub-heavy kick.
    pub fn deep() -> (r: KickConfig)
        ensures
            r.wf(),
    {
        KickConfig::new(
            45_000,
            32_768,
            65_536,
            13_107,
            1_200_000,
            32_768,
            58_982,
            32,
            19_661,
            20,
            52_429,
            52_429,
            10,
            false,
            30,
        )
    }

    /// A short, clicky kick.
    pub fn tight() -> (r: KickConfig)
        ensures
            r.wf(),
    {
        KickConfig::new(
            70_000,
            52_429,
            45_875,
            32_768,
            400_000,
            52_429,
            52_429,
            44,
            58_982,
            3,
            19_661,
            26_214,
            50,
            true,
            80,
        )
    }
}

/// An ADSR configuration from possibly-negative raw stage values: each
/// duration clamped into the valid interval, the sustain into `[0, SCALE]`.
pub open spec fn spec_adsr_i(a: int, d: int, s: int, r: int) -> ADSRConfig {
    ADSRConfig {
        attack_time: spec_clamp(a, 1, MAX_STAGE_US as int) as u64,
        decay_time: spec_clamp(d, 1, MAX_STAGE_US as int) as u64,
        sustain_level: spec_clamp(s, 0, SCALE as int) as i64,
        release_time: spec_clamp(r, 1, MAX_STAGE_US as int) as u64,
    }
}

/// Builds an ADSR configuration from raw (possibly negative) stage values.
pub(crate) fn adsr_from_i64(a: i64, d: i64, s: i64, r: i64) -> (c: ADSRConfig)
    ensures
        c == spec_adsr_i(a as int, d as int, s as int, r as int),
        c.wf(),
{
    ADSRConfig::new(
        clamp_i64(a, 1, MAX_STAGE_US as i64) as u64,
        clamp_i64(d, 1, MAX_STAGE_US as i64) as u64,
        clamp_i64(s, 0, SCALE),
        clamp_i64(r, 1, MAX_STAGE_US as i64) as u64,
    )
}

/// Base frequency of a configured kick, millihertz: the MIDI note where one
/// is set, else the direct fundamental.
pub open spec fn spec_base_freq(c: KickConfig) -> int {
    if c.base_note > 0 {
        spec_midi_to_hz(c.base_note as int)
    } else {
        c.kick_frequency as int
    }
}

/// Attack stage in microseconds mapped from the UI knob: 1..100 onto
/// 0.5 ms .. 400 ms.
pub open spec fn spec_attack_env_us(c: KickConfig) -> int {
    500 + (c.attack_ms - 1) * 399_500 / 99
}

/// Decay stage in microseconds: the 1..100 knob mapping read against the
/// decay time in seconds, so short decays land below the range and clamp at
/// the shortest stage.
pub open spec fn spec_decay_env_us(c: KickConfig) -> int {
    500 + spec_div_t((c.decay_time - 1_000_000) * 3_999_500, 99_000_000)
}

/// Cutoff (millihertz) of the noise low-pass: the Q16 knob mapped onto
/// 10 Hz .. 2400 Hz.
pub open spec fn spec_noise_lp_mhz(c: KickConfig) -> int {
    10_000 + c.noise_freq_scale * 2_390_000 / (SCALE as int)
}

/// Cutoff (millihertz) of the swept output low-pass: the 1..100 knob
/// mapped onto 4 Hz .. 700 Hz.
pub open spec fn spec_output_lp_mhz(c: KickConfig) -> int {
    4_000 + (c.filter_sweep_amt - 1) * 696_000 / 99
}

/// A composite kick-drum voice.
pub struct KickDrum {
    pub sample_rate: u32,
    pub config: KickConfig,
    pub sub_oscillator: Oscillator,
    pub punch_oscillator: Oscillator,
    pub click_oscillator: Oscillator,
    pub pitch_envelope: Envelope,
    pub base_frequency: u64,
    pub pitch_start_multiplier: i64,
    pub click_filter: ResonantHighpassFilter,
    pub fm_snap: FMOscillator,
    pub noise_lp_filter: ResonantLowpassFilter,
    pub output_lp_filter: ResonantLowpassFilter,
    pub noise_envelope: Envelope,
    pub click_envelope: Envelope,
    pub is_active: bool,
}

impl KickDrum {
    /// Every owned component is well formed and runs at the voice's rate.
    pub open spec fn wf(self) -> bool {
        &&& SR_MIN <= self.sample_rate <= SR_MAX
        &&& self.config.wf()
        &&& self.sub_oscillator.wf() && self.sub_oscillator.sample_rate == self.sample_rate
            && self.sub_oscillator.enabled && self.sub_oscillator.waveform == Waveform::Sine
        &&& self.punch_oscillator.wf() && self.punch_oscillator.sample_rate == self.sample_rate
            && self.punch_oscillator.enabled && self.punch_oscillator.waveform
            == Waveform::Triangle
        &&& self.click_oscillator.wf() && self.click_oscillator.sample_rate == self.sample_rate
            && self.click_oscillator.enabled && self.click_oscillator.waveform
            == Waveform::WhiteNoise
        &&& self.pitch_envelope.wf()
        &&& 8_000 <= self.base_frequency <= 13_300_000
        &&& SCALE <= self.pitch_start_multiplier <= 3 * SCALE
        &&& self.click_filter.wf() && self.click_filter.sample_rate == self.sample_rate
        &&& self.fm_snap.wf() && self.fm_snap.sample_rate == self.sample_rate
        &&& self.noise_lp_filter.wf() && self.noise_lp_filter.sample_rate == self.sample_rate
        &&& self.output_lp_filter.wf() && self.output_lp_filter.sample_rate == self.sample_rate
        &&& self.noise_envelope.wf()
        &&& self.click_envelope.wf()
    }

    /// The voice's parameters agree with its configuration, as
    /// `configure_oscillators` leaves them: waveforms, frequencies, volumes,
    /// envelope shapes and filter cutoffs all derived from `config`.
    pub open spec fn spec_configured(self) -> bool {
        let base = spec_base_freq(self.config);
        let a = spec_attack_env_us(self.config);
        let d = spec_decay_env_us(self.config);
        &&& self.base_frequency == base
        &&& self.sub_oscillator.waveform == Waveform::Sine
        &&& self.sub_oscillator.frequency_mhz == spec_clamp(base, FREQ_MIN as int, FREQ_MAX as int)
        &&& self.sub_oscillator.volume == spec_mul_q(
            self.config.sub_amount as int,
            self.config.volume as int,
        )
        &&& self.sub_oscillator.envelope.config() == spec_adsr_i(a, d, 0, spec_div_t(d, 5))
        &&& self.punch_oscillator.waveform == Waveform::Triangle
        &&& self.punch_oscillator.frequency_mhz == spec_clamp(
            base * 5 / 2,
            FREQ_MIN as int,
            FREQ_MAX as int,
        )
        &&& self.punch_oscillator.volume == spec_mul_q(
            spec_mul_q(self.config.punch_amount as int, self.config.volume as int),
            45_875,
        )
        &&& self.punch_oscillator.envelope.config() == spec_adsr_i(a, d, 0, spec_div_t(d, 5))
        &&& self.click_oscillator.waveform == Waveform::WhiteNoise
        &&& self.click_oscillator.frequency_mhz == spec_clamp(
            base * 40,
            FREQ_MIN as int,
            FREQ_MAX as int,
        )
        &&& self.click_oscillator.volume == spec_mul_q(
            spec_mul_q(self.config.click_amount as int, self.config.volume as int),
            19_661,
        )
        &&& self.click_oscillator.envelope.config() == spec_adsr_i(
            a,
            spec_div_t(d, 5),
            0,
            spec_div_t(d, 50),
        )
        &&& self.pitch_envelope.config() == spec_adsr_i(1_000, d, 0, spec_div_t(d, 5))
        &&& self.noise_envelope.config() == spec_adsr_i(a, spec_div_t(d, 2), 0, spec_div_t(d, 10))
        &&& self.click_envelope.config() == spec_adsr_i(
            1_000,
            spec_div_t(d, 10),
            0,
            spec_div_t(d, 50),
        )
        &&& self.noise_lp_filter.cutoff_mhz == spec_clamp(
            spec_noise_lp_mhz(self.config),
            FREQ_MIN as int,
            FREQ_MAX as int,
        )
        &&& self.output_lp_filter.cutoff_mhz == spec_clamp(
            spec_output_lp_mhz(self.config),
            FREQ_MIN as int,
            FREQ_MAX as int,
        )
    }

    /// The pitch-envelope span in millihertz: the amount knob mapped onto
    /// 30 Hz .. 200 Hz.
    pub open spec fn spec_pitch_env_mhz(self) -> int {
        30_000 + spec_mul_q(self.config.pitch_env_amount as int, 170_000)
    }

    /// The downward pitch offset at time `t`, millihertz.
    pub open spec fn spec_pitch_offset(self, t: int) -> int {
        spec_mul_q(self.spec_pitch_env_mhz(), self.pitch_envelope.spec_amplitude(t))
    }

    /// The sub oscillator as it sounds at `t`: retuned by the pitch offset.
    pub open spec fn spec_retuned_sub(self, t: int) -> Oscillator {
        Oscillator {
            frequency_mhz: spec_clamp(
                self.base_frequency + self.spec_pitch_offset(t),
                FREQ_MIN as int,
                FREQ_MAX as int,
            ) as u64,
            ..self.sub_oscillator
        }
    }

    /// The punch oscillator as it sounds at `t`: two and a half times the
    /// fundamental, retuned by the pitch offset.
    pub open spec fn spec_retuned_punch(self, t: int) -> Oscillator {
        Oscillator {
            frequency_mhz: spec_clamp(
                self.base_frequency * 5 / 2 + self.spec_pitch_offset(t),
                FREQ_MIN as int,
                FREQ_MAX as int,
            ) as u64,
            ..self.punch_oscillator
        }
    }

    /// The click frequency at `t`: forty times the fundamental, with only a
    /// third of the pitch offset so the transient keeps its character.
    pub open spec fn spec_click_freq(self, t: int) -> int {
        spec_clamp(
            self.base_frequency * 40 + spec_mul_q(self.spec_pitch_offset(t), 19_661),
            FREQ_MIN as int,
            FREQ_MAX as int,
        )
    }

    /// The noise-envelope depth mapped onto a 0.4 .. 0.9 gain, Q16.16.
    pub open spec fn spec_noise_scale(self) -> int {
        26_214 + spec_mul_q(self.config.noise_env_depth as int, 32_768)
    }

    /// The overdrive knob mapped onto a 1 .. 10 gain, Q16.16.
    pub open spec fn spec_overdrive_gain(self) -> int {
        (SCALE as int) + (self.config.overdrive - 1) * 589_824 / 99
    }

    /// The sample one sounding tick returns given the click-voice draw `c`:
    /// the retuned sub and punch partials, the high-passed click and
    /// low-passed noise branches of `c` under their envelopes and weights,
    /// and the FM snap, all summed, overdriven, soft-clipped, put through
    /// the output low-pass as it stood, and halved.
    pub open spec fn spec_tick_sample_with(self, t: int, c: int) -> int {
        let sub_s = self.spec_retuned_sub(t).spec_tick_sample(t);
        let punch_s = self.spec_retuned_punch(t).spec_tick_sample(t);
        let filtered_click = spec_biquad_out(
            self.click_filter.coeffs,
            c,
            self.click_filter.x1 as int,
            self.click_filter.x2 as int,
            self.click_filter.y1 as int,
            self.click_filter.y2 as int,
        );
        let noise_low = spec_biquad_out(
            self.noise_lp_filter.coeffs,
            c,
            self.noise_lp_filter.x1 as int,
            self.noise_lp_filter.x2 as int,
            self.noise_lp_filter.y1 as int,
            self.noise_lp_filter.y2 as int,
        );
        let noise_component = spec_mul_q(
            spec_mul_q(
                spec_mul_q(noise_low, self.noise_envelope.spec_amplitude(t)),
                self.spec_noise_scale(),
            ),
            19_661,
        );
        let click_mix = spec_mul_q(
            spec_mul_q(filtered_click, self.click_envelope.spec_amplitude(t)),
            13_107,
        );
        let fm_s = spec_mul_q(
            spec_mul_q(
                spec_fm_sample(
                    self.fm_snap.time_ticks as int,
                    self.fm_snap.carrier_freq as int,
                    self.fm_snap.modulator_freq as int,
                    self.fm_snap.sample_rate as int,
                    self.fm_snap.mod_index_envelope.spec_amplitude(t),
                ),
                self.fm_snap.volume as int,
            ),
            self.config.volume as int,
        );
        let total = sub_s + punch_s + click_mix + noise_component + fm_s;
        spec_div_t(
            spec_biquad_out(
                self.output_lp_filter.coeffs,
                crate::fixed::spec_soft_clip(spec_mul_q(total, self.spec_overdrive_gain())),
                self.output_lp_filter.x1 as int,
                self.output_lp_filter.x2 as int,
                self.output_lp_filter.y1 as int,
                self.output_lp_filter.y2 as int,
            ),
            2,
        )
    }

    /// What one sounding tick returns: the mix above, for some click-voice
    /// draw inside the raw oscillator bound.
    pub open spec fn spec_tick_output_ok(self, t: int, r: i64) -> bool {
        exists|c: int|
            -OSC_RAW_BOUND <= c <= OSC_RAW_BOUND && r == #[trigger] self.spec_tick_sample_with(
                t,
                c,
            )
    }

    /// A kick with the stock configuration.
    pub fn new(sample_rate: u32) -> (r: KickDrum)
        ensures
            r.wf(),
            r.spec_configured(),
            !r.is_active,
    {
        let config = KickConfig::default();
        KickDrum::with_config(sample_rate, config)
    }

    /// A kick with the given configuration (sample rate clamped).
    pub fn with_config(sample_rate: u32, config: KickConfig) -> (r: KickDrum)
        requires
            config.wf(),
        ensures
            r.wf(),
            r.spec_configured(),
            r.config == config,
            !r.is_active,
    {
        let sr: u32 = if sample_rate < SR_MIN {
            SR_MIN
        } else if sample_rate > SR_MAX {
            SR_MAX
        } else {
            sample_rate
        };
        let mut sub = Oscillator::new(sr, config.kick_frequency);
        sub.waveform = Waveform::Sine;
        let mut punch = Oscillator::new(sr, config.kick_frequency * 5 / 2);
        punch.waveform = Waveform::Triangle;
        let mut click = Oscillator::new(sr, config.kick_frequency * 40);
        click.waveform = Waveform::WhiteNoise;
        let mut kick = KickDrum {
            sample_rate: sr,
            config,
            sub_oscillator: sub,
            punch_oscillator: punch,
            click_oscillator: click,
            pitch_envelope: Envelope::new(),
            base_frequency: config.kick_frequency,
            pitch_start_multiplier: SCALE + 2 * config.pitch_drop,
            click_filter: ResonantHighpassFilter::new(sr, 8_000_000, 4 * SCALE),
            fm_snap: FMOscillator::new(sr, 1_200_000, 2_400_000),
            noise_lp_filter: ResonantLowpassFilter::new(sr, 1_000_000, SCALE),
            output_lp_filter: ResonantLowpassFilter::new(sr, 2_000_000, SCALE),
            noise_envelope: Envelope::new(),
            click_envelope: Envelope::new(),
            is_active: false,
        };
        kick.configure_oscillators();
        kick
    }

    /// Derives every sub-component parameter from the configuration: the
    /// base frequency from the MIDI note or the fundamental, the stage
    /// durations from the attack and decay knobs, per-component volumes
    /// from the amounts, and the two swept filter cutoffs; leaves the run
    /// state (phases, trigger times, activity, filter registers) alone.
    fn configure_oscillators(&mut self)
        requires
            old(self).wf(),
        ensures
            final(self).wf(),
            final(self).spec_configured(),
            final(self).config == old(self).config,
            final(self).sample_rate == old(self).sample_rate,
            final(self).is_active == old(self).is_active,
            final(self).pitch_start_multiplier == old(self).pitch_start_multiplier,
            final(self).fm_snap == old(self).fm_snap,
            final(self).click_filter == old(self).click_filter,
            final(self).sub_oscillator.current_sample_index == old(self).sub_oscillator.current_sample_index,
            final(self).sub_oscillator.envelope.is_active == old(self).sub_oscillator.envelope.is_active,
            final(self).sub_oscillator.envelope.trigger_time == old(self).sub_oscillator.envelope.trigger_time,
            final(self).punch_oscillator.envelope.is_active == old(self).punch_oscillator.envelope.is_active,
            final(self).click_oscillator.envelope.is_active == old(self).click_oscillator.envelope.is_active,
            final(self).pitch_envelope.is_active == old(self).pitch_envelope.is_active,
            final(self).noise_envelope.is_active == old(self).noise_envelope.is_active,
            final(self).click_envelope.is_active == old(self).click_envelope.is_active,
    {
        let base_freq: u64 = if self.config.base_note > 0 {
            midi_to_hz(self.config.base_note)
        } else {
            self.config.kick_frequency
        };
        let attack_us: i64 = 500 + ((self.config.attack_ms - 1) as i64) * 399_500 / 99;
        let decay_us: i64 = 500 + crate::fixed::div_t(
            ((self.config.decay_time as i64) - 1_000_000) * 3_999_500,
            99_000_000,
        );
        self.sub_oscillator.waveform = Waveform::Sine;
        self.sub_oscillator.frequency_mhz = clamp_u64(base_freq, FREQ_MIN, FREQ_MAX);
        self.sub_oscillator.set_volume(mul_q(self.config.sub_amount, self.config.volume));
        proof {
            crate::fixed::lemma_mul_q_gain(
                self.config.sub_amount as int,
                self.config.volume as int,
                SCALE as int,
            );
        }
        self.sub_oscillator.set_adsr(
            adsr_from_i64(attack_us, decay_us, 0, crate::fixed::div_t(decay_us, 5)),
        );
        self.punch_oscillator.waveform = Waveform::Triangle;
        self.punch_oscillator.frequency_mhz = clamp_u64(base_freq * 5 / 2, FREQ_MIN, FREQ_MAX);
        let punch_vol: i64 = mul_q(self.config.punch_amount, self.config.volume);
        proof {
            crate::fixed::lemma_mul_q_gain(
                self.config.punch_amount as int,
                self.config.volume as int,
                SCALE as int,
            );
            crate::fixed::lemma_mul_q_gain(punch_vol as int, 45_875, SCALE as int);
        }
        self.punch_oscillator.set_volume(mul_q(punch_vol, 45_875));
        self.punch_oscillator.set_adsr(
            adsr_from_i64(attack_us, decay_us, 0, crate::fixed::div_t(decay_us, 5)),
        );
        self.click_oscillator.waveform = Waveform::WhiteNoise;
        self.click_oscillator.frequency_mhz = clamp_u64(base_freq * 40, FREQ_MIN, FREQ_MAX);
        let click_vol: i64 = mul_q(self.config.click_amount, self.config.volume);
        proof {
            crate::fixed::lemma_mul_q_gain(
                self.config.click_amount as int,
                self.config.volume as int,
                SCALE as int,
            );
            crate::fixed::lemma_mul_q_gain(click_vol as int, 19_661, SCALE as int);
        }
        self.click_oscillator.set_volume(mul_q(click_vol, 19_661));
        self.click_oscillator.set_adsr(
            adsr_from_i64(
                attack_us,
                crate::fixed::div_t(decay_us, 5),
                0,
                crate::fixed::div_t(decay_us, 50),
            ),
        );
        self.pitch_envelope.set_config(
            adsr_from_i64(1_000, decay_us, 0, crate::fixed::div_t(decay_us, 5)),
        );
        self.noise_envelope.set_config(
            adsr_from_i64(
                attack_us,
                crate::fixed::div_t(decay_us, 2),
                0,
                crate::fixed::div_t(decay_us, 10),
            ),
        );
        self.click_envelope.set_config(
            adsr_from_i64(
                1_000,
                crate::fixed::div_t(decay_us, 10),
                0,
                crate::fixed::div_t(decay_us, 50),
            ),
        );
        let noise_lp: i64 = 10_000 + mul_q(self.config.noise_freq_scale, 2_390_000);
        proof {
            crate::fixed::lemma_mul_q_contract(2_390_000, self.config.noise_freq_scale as int);
            assert(spec_mul_q(self.config.noise_freq_scale as int, 2_390_000) == spec_mul_q(
                2_390_000,
                self.config.noise_freq_scale as int,
            )) by {
                assert((self.config.noise_freq_scale as int) * 2_390_000 == 2_390_000 * (
                self.config.noise_freq_scale as int)) by (nonlinear_arith);
            }
        }
        self.noise_lp_filter.set_cutoff_freq(noise_lp as u64);
        let output_lp: u64 = 4_000 + ((self.config.filter_sweep_amt - 1) as u64) * 696_000 / 99;
        self.output_lp_filter.set_cutoff_freq(output_lp);
        self.base_frequency = base_freq;
    }

    /// Replaces the configuration and reconfigures every sub-component.
    pub fn set_config(&mut self, config: KickConfig)
        requires
            old(self).wf(),
            config.wf(),
        ensures
            final(self).wf(),
            final(self).spec_configured(),
            final(self).config == config,
            final(self).is_active == old(self).is_active,
            final(self).pitch_start_multiplier == SCALE + 2 * config.pitch_drop,
    {
        self.config = config;
        self.base_frequency = config.kick_frequency;
        self.pitch_start_multiplier = SCALE + 2 * config.pitch_drop;
        self.configure_oscillators();
    }

    /// Fires the hit at absolute time `time`: every oscillator, envelope
    /// and the FM snap retrigger atomically, the filters' registers are
    /// cleared so no state bleeds between hits, and (when configured) the
    /// oscillator phases reset.
    pub fn trigger(&mut self, time: u64)
        requires
            old(self).wf(),
        ensures
            final(self).wf(),
            final(self).is_active,
            final(self).sub_oscillator.envelope.is_active,
            final(self).sub_oscillator.envelope.trigger_time == time,
            final(self).punch_oscillator.envelope.is_active,
            final(self).punch_oscillator.envelope.trigger_time == time,
            final(self).click_oscillator.envelope.is_active,
            final(self).click_oscillator.envelope.trigger_time == time,
            final(self).pitch_envelope.is_active,
            final(self).pitch_envelope.trigger_time == time,
            final(self).noise_envelope.is_active,
            final(self).noise_envelope.trigger_time == time,
            final(self).click_envelope.is_active,
            final(self).click_envelope.trigger_time == time,
            final(self).fm_snap.mod_index_envelope.is_active,
            final(self).fm_snap.mod_index_envelope.trigger_time == time,
            final(self).click_filter.x1 == 0 && final(self).click_filter.x2 == 0
                && final(self).click_filter.y1 == 0 && final(self).click_filter.y2 == 0,
            final(self).noise_lp_filter.x1 == 0 && final(self).noise_lp_filter.x2 == 0
                && final(self).noise_lp_filter.y1 == 0 && final(self).noise_lp_filter.y2 == 0,
            final(self).output_lp_filter.x1 == 0 && final(self).output_lp_filter.x2 == 0
                && final(self).output_lp_filter.y1 == 0 && final(self).output_lp_filter.y2 == 0,
            final(self).config == old(self).config,
            final(self).sample_rate == old(self).sample_rate,
            final(self).base_frequency == old(self).base_frequency,
            old(self).config.phase_reset ==> final(self).sub_oscillator.current_sample_index == 0
                && final(self).punch_oscillator.current_sample_index == 0 && final(self).click_oscillator.current_sample_index == 0,
    {
        self.is_active = true;
        if self.config.phase_reset {
            self.sub_oscillator.current_sample_index = 0;
            self.punch_oscillator.current_sample_index = 0;
            self.click_oscillator.current_sample_index = 0;
        }
        self.sub_oscillator.trigger(time);
        self.punch_oscillator.trigger(time);
        self.click_oscillator.trigger(time);
        self.pitch_envelope.trigger(time);
        self.noise_envelope.trigger(time);
        self.click_envelope.trigger(time);
        self.fm_snap.trigger(time);
        self.click_filter.reset();
        self.noise_lp_filter.reset();
        self.output_lp_filter.reset();
    }

    /// Forwards a release to every envelope while sounding; each release
    /// tail is baked into its shape, so nothing moves.
    pub fn release(&mut self, time: u64)
        requires
            old(self).wf(),
        ensures
            final(self).wf(),
            *final(self) == *old(self),
    {
        if self.is_active {
            self.sub_oscillator.release(time);
            self.punch_oscillator.release(time);
            self.click_oscillator.release(time);
            self.pitch_envelope.release(time);
            self.noise_envelope.release(time);
            self.click_envelope.release(time);
        }
    }

    /// One output sample at absolute time `current_time`. Idle, the voice
    /// returns exactly zero and nothing moves. Sounding, the pitch
    /// envelope's offset retunes the oscillators, the sub, punch, click,
    /// filtered-noise and FM-snap components are mixed, saturated, low-pass
    /// filtered and halved; the voice stays active until every envelope and
    /// the FM snap have finished.
    #[verifier::rlimit(100)]
    #[verifier::spinoff_prover]
    pub fn tick(&mut self, current_time: u64) -> (r: i64)
        requires
            old(self).wf(),
        ensures
            final(self).wf(),
            -FILTER_BOUND <= r <= FILTER_BOUND,
            !old(self).is_active ==> r == 0 && *final(self) == *old(self),
            final(self).config == old(self).config,
            final(self).sample_rate == old(self).sample_rate,
            final(self).base_frequency == old(self).base_frequency,
            final(self).pitch_start_multiplier == old(self).pitch_start_multiplier,
            old(self).is_active ==> final(self).is_active == (final(self).sub_oscillator.envelope.is_active || final(self).punch_oscillator.envelope.is_active
                || final(self).click_oscillator.envelope.is_active || final(self).fm_snap.mod_index_envelope.is_active || final(self).noise_envelope.is_active || final(self).click_envelope.is_active),
            old(self).is_active ==> final(self).sub_oscillator.envelope.is_active == old(self).sub_oscillator.envelope.spec_running(current_time as int) && final(self).punch_oscillator.envelope.is_active == old(self).punch_oscillator.envelope.spec_running(current_time as int) && final(self).click_oscillator.envelope.is_active == old(self).click_oscillator.envelope.spec_running(current_time as int),
            old(self).is_active ==> final(self).pitch_envelope.is_active == old(self).pitch_envelope.spec_running(current_time as int) && final(self).noise_envelope.is_active == old(self).noise_envelope.spec_running(
                current_time as int,
            ) && final(self).click_envelope.is_active == old(self).click_envelope.spec_running(
                current_time as int,
            ) && final(self).fm_snap.mod_index_envelope.is_active == old(self).fm_snap.mod_index_envelope.spec_running(current_time as int),
            old(self).is_active ==> final(self).sub_oscillator.frequency_mhz == old(self).spec_retuned_sub(current_time as int).frequency_mhz && final(self).punch_oscillator.frequency_mhz == old(self).spec_retuned_punch(
                current_time as int,
            ).frequency_mhz && final(self).click_oscillator.frequency_mhz == old(self).spec_click_freq(current_time as int),
            old(self).is_active ==> old(self).spec_tick_output_ok(current_time as int, r),
    {
        if !self.is_active {
            return 0;
        }
        let pitch_envelope_value: i64 = self.pitch_envelope.get_amplitude(current_time);
        let pitch_env_mhz: i64 = 30_000 + mul_q(self.config.pitch_env_amount, 170_000);
        proof {
            crate::fixed::lemma_mul_q_contract(170_000, self.config.pitch_env_amount as int);
            assert((self.config.pitch_env_amount as int) * 170_000 == 170_000 * (
            self.config.pitch_env_amount as int)) by (nonlinear_arith);
        }
        let pitch_offset: i64 = mul_q(pitch_env_mhz, pitch_envelope_value);
        proof {
            crate::fixed::lemma_mul_q_contract(pitch_env_mhz as int, pitch_envelope_value as int);
        }
        self.sub_oscillator.frequency_mhz = clamp_u64(
            self.base_frequency + (pitch_offset as u64),
            FREQ_MIN,
            FREQ_MAX,
        );
        self.punch_oscillator.frequency_mhz = clamp_u64(
            self.base_frequency * 5 / 2 + (pitch_offset as u64),
            FREQ_MIN,
            FREQ_MAX,
        );
        let click_push: i64 = mul_q(pitch_offset, 19_661);
        proof {
            crate::fixed::lemma_mul_q_gain(pitch_offset as int, 19_661, 200_000);
        }
        self.click_oscillator.frequency_mhz = clamp_u64(
            self.base_frequency * 40 + (click_push as u64),
            FREQ_MIN,
            FREQ_MAX,
        );
        let noise_env: i64 = self.noise_envelope.get_amplitude(current_time);
        let click_env: i64 = self.click_envelope.get_amplitude(current_time);
        let sub_output: i64 = self.sub_oscillator.tick(current_time);
        let punch_output: i64 = self.punch_oscillator.tick(current_time);
        let raw_click_output: i64 = self.click_oscillator.tick(current_time);
        let filtered_click: i64 = self.click_filter.process(raw_click_output);
        let noise_scale: i64 = 26_214 + mul_q(self.config.noise_env_depth, 32_768);
        proof {
            crate::fixed::lemma_mul_q_gain(self.config.noise_env_depth as int, 32_768, SCALE as int);
        }
        let noise_low: i64 = self.noise_lp_filter.process(raw_click_output);
        let noise_scaled: i64 = mul_q(noise_low, noise_env);
        proof {
            crate::fixed::lemma_mul_q_gain(noise_low as int, noise_env as int, FILTER_BOUND as int);
        }
        let noise_shaped: i64 = mul_q(noise_scaled, noise_scale);
        proof {
            crate::fixed::lemma_mul_q_gain(
                noise_scaled as int,
                noise_scale as int,
                FILTER_BOUND as int,
            );
        }
        let noise_component: i64 = mul_q(noise_shaped, 19_661);
        proof {
            crate::fixed::lemma_mul_q_gain(noise_shaped as int, 19_661, FILTER_BOUND as int);
        }
        let fm_snap_output: i64 = self.fm_snap.tick(current_time);
        let body_mix: i64 = sub_output + punch_output;
        let click_scaled: i64 = mul_q(filtered_click, click_env);
        proof {
            crate::fixed::lemma_mul_q_gain(
                filtered_click as int,
                click_env as int,
                FILTER_BOUND as int,
            );
        }
        let click_mix: i64 = mul_q(click_scaled, 13_107);
        proof {
            crate::fixed::lemma_mul_q_gain(click_scaled as int, 13_107, FILTER_BOUND as int);
        }
        let fm_scaled: i64 = mul_q(fm_snap_output, self.config.volume);
        proof {
            crate::fixed::lemma_mul_q_gain(
                fm_snap_output as int,
                self.config.volume as int,
                SCALE as int,
            );
        }
        let total_mix: i64 = body_mix + click_mix + noise_component + fm_scaled;
        let overdrive_gain: i64 = SCALE + ((self.config.overdrive - 1) as i64) * 589_824 / 99;
        let driven: i64 = mul_q(total_mix, overdrive_gain);
        proof {
            crate::fixed::lemma_mul_q_bound(
                total_mix as int,
                overdrive_gain as int,
                48_000_000_000,
                655_360,
            );
        }
        let saturated: i64 = soft_clip_q(driven);
        let filtered_output: i64 = self.output_lp_filter.process(saturated);
        let final_output: i64 = crate::fixed::div_t(filtered_output, 2);
        proof {
            assert(final_output == old(self).spec_tick_sample_with(
                current_time as int,
                raw_click_output as int,
            ));
        }
        if !self.sub_oscillator.envelope.is_active && !self.punch_oscillator.envelope.is_active
            && !self.click_oscillator.envelope.is_active && !self.fm_snap.mod_index_envelope.is_active
            && !self.noise_envelope.is_active && !self.click_envelope.is_active {
            self.is_active = false;
        }
        final_output
    }

    /// Whether the voice is still sounding.
    pub fn is_active(&self) -> (r: bool)
        ensures
            r == self.is_active,
    {
        self.is_active
    }

    /// Sets the overall volume knob (clamped) and reconfigures.
    pub fn set_volume(&mut self, volume: i64)
        requires
            old(self).wf(),
        ensures
            final(self).wf(),
            final(self).spec_configured(),
            final(self).config.volume == spec_clamp(volume as int, 0, SCALE as int),
            final(self).config == (KickConfig { volume: final(self).config.volume, ..old(self).config }),
            final(self).is_active == old(self).is_active,
    {
        self.config.volume = clamp_i64(volume, 0, SCALE);
        self.configure_oscillators();
    }

    /// Sets the fundamental frequency (millihertz, clamped) and
    /// reconfigures.
    pub fn set_frequency(&mut self, frequency_mhz: u64)
        requires
            old(self).wf(),
        ensures
            final(self).wf(),
            final(self).spec_configured(),
            final(self).config.kick_frequency == spec_clamp(frequency_mhz as int, 20_000, 200_000),
            final(self).config == (KickConfig {
                kick_frequency: final(self).config.kick_frequency,
                ..old(self).config
            }),
            final(self).is_active == old(self).is_active,
    {
        self.config.kick_frequency = clamp_u64(frequency_mhz, 20_000, 200_000);
        self.base_frequency = self.config.kick_frequency;
        self.configure_oscillators();
    }

    /// Sets the decay length (microseconds, clamped) and reconfigures.
    pub fn set_decay(&mut self, decay_us: u64)
        requires
            old(self).wf(),
        ensures
            final(self).wf(),
            final(self).spec_configured(),
            final(self).config.decay_time == spec_clamp(decay_us as int, 10_000, 5_000_000),
            final(self).config == (KickConfig {
                decay_time: final(self).config.decay_time,
                ..old(self).config
            }),
            final(self).is_active == old(self).is_active,
    {
        self.config.decay_time = clamp_u64(decay_us, 10_000, 5_000_000);
        self.configure_oscillators();
    }

    /// Sets the punch amount (clamped) and reconfigures.
    pub fn set_punch(&mut self, punch_amount: i64)
        requires
            old(self).wf(),
        ensures
            final(self).wf(),
            final(self).spec_configured(),
            final(self).config.punch_amount == spec_clamp(punch_amount as int, 0, SCALE as int),
            final(self).config == (KickConfig {
                punch_amount: final(self).config.punch_amount,
                ..old(self).config
            }),
            final(self).is_active == old(self).is_active,
    {
        self.config.punch_amount = clamp_i64(punch_amount, 0, SCALE);
        self.configure_oscillators();
    }

    /// Sets the sub amount (clamped) and reconfigures.
    pub fn set_sub(&mut self, sub_amount: i64)
        requires
            old(self).wf(),
        ensures
            final(self).wf(),
            final(self).spec_configured(),
            final(self).config.sub_amount == spec_clamp(sub_amount as int, 0, SCALE as int),
            final(self).config == (KickConfig {
                sub_amount: final(self).config.sub_amount,
                ..old(self).config
            }),
            final(self).is_active == old(self).is_active,
    {
        self.config.sub_amount = clamp_i64(sub_amount, 0, SCALE);
        self.configure_oscillators();
    }

    /// Sets the click amount (clamped) and reconfigures.
    pub fn set_click(&mut self, click_amount: i64)
        requires
            old(self).wf(),
        ensures
            final(self).wf(),
            final(self).spec_configured(),
            final(self).config.click_amount == spec_clamp(click_amount as int, 0, SCALE as int),
            final(self).config == (KickConfig {
                click_amount: final(self).config.click_amount,
                ..old(self).config
            }),
            final(self).is_active == old(self).is_active,
    {
        self.config.click_amount = clamp_i64(click_amount, 0, SCALE);
        self.configure_oscillators();
    }

    /// Sets the pitch-drop amount (clamped); only the sweep start
    /// multiplier changes.
    pub fn set_pitch_drop(&mut self, pitch_drop: i64)
        requires
            old(self).wf(),
        ensures
            final(self).wf(),
            final(self).config.pitch_drop == spec_clamp(pitch_drop as int, 0, SCALE as int),
            final(self).pitch_start_multiplier == SCALE + 2 * final(self).config.pitch_drop,
            final(self).config == (KickConfig {
                pitch_drop: final(self).config.pitch_drop,
                ..old(self).config
            }),
            final(self).is_active == old(self).is_active,
    {
        self.config.pitch_drop = clamp_i64(pitch_drop, 0, SCALE);
        self.pitch_start_multiplier = SCALE + 2 * self.config.pitch_drop;
    }

    /// Sets the MIDI base note (clamped) and reconfigures.
    pub fn set_base_note(&mut self, base_note: u32)
        requires
            old(self).wf(),
        ensures
            final(self).wf(),
            final(self).spec_configured(),
            final(self).config.base_note == spec_clamp(base_note as int, 0, 127),
            final(self).config == (KickConfig {
                base_note: final(self).config.base_note,
                ..old(self).config
            }),
            final(self).is_active == old(self).is_active,
    {
        self.config.base_note = if base_note > 127 {
            127
        } else {
            base_note
        };
        self.configure_oscillators();
    }

    /// Sets the pitch-envelope amount (clamped) and reconfigures.
    pub fn set_pitch_env_amount(&mut self, pitch_env_amount: i64)
        requires
            old(self).wf(),
        ensures
            final(self).wf(),
            final(self).spec_configured(),
            final(self).config.pitch_env_amount == spec_clamp(
                pitch_env_amount as int,
                0,
                SCALE as int,
            ),
            final(self).config == (KickConfig {
                pitch_env_amount: final(self).config.pitch_env_amount,
                ..old(self).config
            }),
            final(self).is_active == old(self).is_active,
    {
        self.config.pitch_env_amount = clamp_i64(pitch_env_amount, 0, SCALE);
        self.configure_oscillators();
    }

    /// Sets the attack knob (1..100, clamped) and reconfigures.
    pub fn set_attack_ms(&mut self, attack_ms: u32)
        requires
            old(self).wf(),
        ensures
            final(self).wf(),
            final(self).spec_configured(),
            final(self).config.attack_ms == spec_clamp(attack_ms as int, 1, 100),
            final(self).config == (KickConfig {
                attack_ms: final(self).config.attack_ms,
                ..old(self).config
            }),
            final(self).is_active == old(self).is_active,
    {
        self.config.attack_ms = if attack_ms < 1 {
            1
        } else if attack_ms > 100 {
            100
        } else {
            attack_ms
        };
        self.configure_oscillators();
    }

    /// Sets the noise-cutoff knob (clamped) and reconfigures.
    pub fn set_noise_freq_scale(&mut self, noise_freq_scale: i64)
        requires
            old(self).wf(),
        ensures
            final(self).wf(),
            final(self).spec_configured(),
            final(self).config.noise_freq_scale == spec_clamp(
                noise_freq_scale as int,
                0,
                SCALE as int,
            ),
            final(self).config == (KickConfig {
                noise_freq_scale: final(self).config.noise_freq_scale,
                ..old(self).config
            }),
            final(self).is_active == old(self).is_active,
    {
        self.config.noise_freq_scale = clamp_i64(noise_freq_scale, 0, SCALE);
        self.configure_oscillators();
    }

    /// Sets the noise-envelope depth (clamped) and reconfigures.
    pub fn set_noise_env_depth(&mut self, noise_env_depth: i64)
        requires
            old(self).wf(),
        ensures
            final(self).wf(),
            final(self).spec_configured(),
            final(self).config.noise_env_depth == spec_clamp(
                noise_env_depth as int,
                0,
                SCALE as int,
            ),
            final(self).config == (KickConfig {
                noise_env_depth: final(self).config.noise_env_depth,
                ..old(self).config
            }),
            final(self).is_active == old(self).is_active,
    {
        self.config.noise_env_depth = clamp_i64(noise_env_depth, 0, SCALE);
        self.configure_oscillators();
    }

    /// Sets the overdrive knob (1..100, clamped) and reconfigures.
    pub fn set_overdrive(&mut self, overdrive: u32)
        requires
            old(self).wf(),
        ensures
            final(self).wf(),
            final(self).spec_configured(),
            final(self).config.overdrive == spec_clamp(overdrive as int, 1, 100),
            final(self).config == (KickConfig {
                overdrive: final(self).config.overdrive,
                ..old(self).config
            }),
            final(self).is_active == old(self).is_active,
    {
        self.config.overdrive = if overdrive < 1 {
            1
        } else if overdrive > 100 {
            100
        } else {
            overdrive
        };
        self.configure_oscillators();
    }

    /// Sets whether a trigger resets the oscillator phases.
    pub fn set_phase_reset(&mut self, phase_reset: bool)
        ensures
            final(self).config.phase_reset == phase_reset,
            *final(self) == (KickDrum { config: final(self).config, ..*old(self) }),
            final(self).config == (KickConfig { phase_reset, ..old(self).config }),
    {
        self.config.phase_reset = phase_reset;
    }

    /// Sets the output-filter sweep knob (1..100, clamped) and
    /// reconfigures.
    pub fn set_filter_sweep_amt(&mut self, filter_sweep_amt: u32)
        requires
            old(self).wf(),
        ensures
            final(self).wf(),
            final(self).spec_configured(),
            final(self).config.filter_sweep_amt == spec_clamp(filter_sweep_amt as int, 1, 100),
            final(self).config == (KickConfig {
                filter_sweep_amt: final(self).config.filter_sweep_amt,
                ..old(self).config
            }),
            final(self).is_active == old(self).is_active,
    {
        self.config.filter_sweep_amt = if filter_sweep_amt < 1 {
            1
        } else if filter_sweep_amt > 100 {
            100
        } else {
            filter_sweep_amt
        };
        self.configure_oscillators();
    }
}

} // verus!
