//! Voice- and effect-level checks: noise bounds, the kick scenario, the FM
//! snap, filters, chorus, LFO and the distortion.

use oscillator::chorus::Chorus;
use oscillator::effects::{AudioEffect, DistortionConfig, SoftClippingDistortion};
use oscillator::envelope::ADSRConfig;
use oscillator::filters::{ResonantHighpassFilter, ResonantLowpassFilter, FILTER_BOUND};
use oscillator::fm_oscillator::FMOscillator;
use oscillator::hihat::{HiHat, HiHatConfig};
use oscillator::instrument::Instrument;
use oscillator::kick::{midi_to_hz, KickConfig, KickDrum};
use oscillator::lfo::{LFOWaveform, LFO};
use oscillator::noise::{snare_noise, NoiseGenerator, NoiseMixer, NoiseType, PINK_OUT_BOUND};
use oscillator::snare::SnareInstrument;
use oscillator::stage::BrickWallLimiter;
use oscillator::tom::{TomConfig, TomDrum};
use oscillator::waveform::Waveform;
use oscillator::SCALE;

#[test]
fn noise_colors_stay_bounded() {
    for noise_type in [NoiseType::White, NoiseType::Pink, NoiseType::Brown, NoiseType::Snare] {
        let mut generator = NoiseGenerator::new(noise_type, 777);
        for _ in 0..5_000 {
            let s = generator.generate();
            assert!(s.abs() <= PINK_OUT_BOUND);
            if !matches!(noise_type, NoiseType::Pink) {
                assert!(s.abs() <= SCALE);
            }
        }
    }
}

#[test]
fn noise_is_not_constant() {
    let mut generator = NoiseGenerator::new(NoiseType::White, 42);
    let first = generator.generate();
    let mut saw_other = false;
    for _ in 0..100 {
        if generator.generate() != first {
            saw_other = true;
        }
    }
    assert!(saw_other);
}

#[test]
fn noise_mixer_clamps_blend() {
    let mut mixer = NoiseMixer::new(NoiseType::Brown, 9);
    mixer.set_mix_level(200_000);
    assert_eq!(mixer.get_mix_level(), SCALE);
    mixer.set_mix_level(-5);
    assert_eq!(mixer.get_mix_level(), 0);
    mixer.set_mix_level(32_768);
    for _ in 0..500 {
        let s = mixer.mix_with_signal(3 * SCALE);
        assert!(s.abs() <= SCALE);
    }
    let convenience = snare_noise(4);
    let _ = convenience;
}

#[test]
fn kick_scenario_bounded_and_retires() {
    // a default kick triggered at t = 0 and ticked at 10 ms steps stays
    // bounded before the limiter, inside the ceiling after it, and
    // retires well before five decay lengths have passed
    let mut kick = KickDrum::new(48_000);
    let limiter = BrickWallLimiter::new(SCALE);
    kick.trigger(0);
    assert!(kick.is_active());
    let mut retired_at: Option<u64> = None;
    for i in 1..=200u64 {
        let t = i * 10_000;
        let s = kick.tick(t);
        assert!(s.abs() <= FILTER_BOUND);
        let limited = limiter.process(s);
        assert!((-SCALE..=SCALE).contains(&limited));
        if !kick.is_active() && retired_at.is_none() {
            retired_at = Some(t);
        }
    }
    let retired = retired_at.expect("kick never retired");
    assert!(retired <= 5 * kick.config.decay_time);
}

#[test]
fn kick_retrigger_reactivates() {
    let mut kick = KickDrum::with_config(44_100, KickConfig::tight());
    kick.trigger(0);
    for i in 1..400u64 {
        kick.tick(i * 10_000);
    }
    assert!(!kick.is_active());
    kick.trigger(5_000_000);
    assert!(kick.is_active());
    assert!(kick.tick(5_000_000).abs() <= FILTER_BOUND);
}

#[test]
fn kick_config_clamps_every_knob() {
    let config = KickConfig::new(
        1, 100_000, -5, 100_000, 1, -1, 100_000, 500, -2, 0, 100_000, -3, 0, true, 0,
    );
    assert_eq!(config.kick_frequency, 20_000);
    assert_eq!(config.punch_amount, SCALE);
    assert_eq!(config.sub_amount, 0);
    assert_eq!(config.click_amount, SCALE);
    assert_eq!(config.decay_time, 10_000);
    assert_eq!(config.pitch_drop, 0);
    assert_eq!(config.volume, SCALE);
    assert_eq!(config.base_note, 127);
    assert_eq!(config.pitch_env_amount, 0);
    assert_eq!(config.attack_ms, 1);
    assert_eq!(config.noise_freq_scale, SCALE);
    assert_eq!(config.noise_env_depth, 0);
    assert_eq!(config.overdrive, 1);
    assert!(config.phase_reset);
    assert_eq!(config.filter_sweep_amt, 1);
}

#[test]
fn kick_presets_are_well_formed() {
    for config in [
        KickConfig::default(),
        KickConfig::punchy(),
        KickConfig::deep(),
        KickConfig::tight(),
    ] {
        let mut kick = KickDrum::with_config(48_000, config);
        kick.trigger(0);
        for i in 1..50u64 {
            assert!(kick.tick(i * 1_000).abs() <= FILTER_BOUND);
        }
    }
}

#[test]
fn midi_note_frequencies_exact() {
    assert_eq!(midi_to_hz(69), 440_000);
    assert_eq!(midi_to_hz(81), 880_000);
    assert_eq!(midi_to_hz(57), 220_000);
    assert_eq!(midi_to_hz(45), 110_000);
    let lowest = midi_to_hz(0);
    assert!((8_000..=9_000).contains(&lowest));
    let highest = midi_to_hz(127);
    assert!((12_000_000..=13_300_000).contains(&highest));
}

#[test]
fn fm_snap_finishes_and_stays_in_unit_range() {
    let mut snap = FMOscillator::new(48_000, 1_200_000, 2_400_000);
    snap.trigger(0);
    assert!(snap.mod_index_envelope.is_active);
    for i in 1..100u64 {
        let s = snap.tick(i * 1_000);
        assert!(s.abs() <= SCALE);
    }
    assert!(!snap.mod_index_envelope.is_active);
}

#[test]
fn snare_mixes_tone_and_noise_within_bounds() {
    let mut snare = SnareInstrument::new(44_100);
    snare.trigger(0);
    for i in 1..500u64 {
        let s = snare.tick(i * 100);
        assert!(s.abs() <= PINK_OUT_BOUND);
    }
    snare.set_tonal_noise_mix(200_000);
    assert_eq!(snare.get_tonal_noise_mix(), SCALE);
    snare.set_noise_mix_level(-1);
    assert_eq!(snare.get_noise_mix_level(), 0);
    snare.set_frequency(10);
    assert_eq!(snare.get_frequency(), 50_000);
}

#[test]
fn snare_pure_tonal_is_deterministic() {
    let mut a = SnareInstrument::new(48_000);
    let mut b = SnareInstrument::new(48_000);
    a.set_tonal_noise_mix(0);
    b.set_tonal_noise_mix(0);
    a.trigger(0);
    b.trigger(0);
    for i in 1..200u64 {
        assert_eq!(a.tick(i * 500), b.tick(i * 500));
    }
}

#[test]
fn disabled_snare_is_silent() {
    let mut snare = SnareInstrument::new(48_000);
    snare.set_enabled(false);
    snare.trigger(0);
    for i in 0..10u64 {
        assert_eq!(snare.tick(i), 0);
    }
    assert!(!snare.is_enabled());
}

#[test]
fn filters_reset_and_stay_bounded() {
    let mut lp = ResonantLowpassFilter::new(48_000, 1_000_000, SCALE);
    let mut hp = ResonantHighpassFilter::new(48_000, 8_000_000, 4 * SCALE);
    for _ in 0..1_000 {
        let a = lp.process(FILTER_BOUND);
        let b = hp.process(-FILTER_BOUND);
        assert!(a.abs() <= FILTER_BOUND);
        assert!(b.abs() <= FILTER_BOUND);
    }
    lp.reset();
    hp.reset();
    assert_eq!(lp.x1, 0);
    assert_eq!(lp.y1, 0);
    assert_eq!(hp.x1, 0);
    assert_eq!(hp.y1, 0);
    lp.set_cutoff_freq(5);
    assert_eq!(lp.cutoff_mhz, 1_000);
    hp.set_resonance(-5);
    assert_eq!(hp.resonance, 6_554);
}

#[test]
fn instrument_mixes_and_gates_on_envelope() {
    let mut instrument = Instrument::new(48_000);
    let first = instrument.add_oscillator(440_000);
    assert_eq!(first, 0);
    let second = instrument.add_oscillator(880_000);
    assert_eq!(second, 1);
    assert_eq!(instrument.oscillator_count(), 2);
    let f = instrument.add_filter(2_000_000, SCALE);
    assert_eq!(f, 0);
    assert_eq!(instrument.filter_count(), 1);
    instrument.set_oscillator_waveform(0, Waveform::Sine);
    instrument.set_oscillator_waveform(1, Waveform::Triangle);
    instrument.set_envelope(1_000, 50_000, 0, 50_000);
    instrument.trigger(0);
    assert!(instrument.is_active());
    for i in 1..300u64 {
        let s = instrument.tick(i * 1_000);
        assert!(s.abs() <= FILTER_BOUND);
    }
    assert!(!instrument.is_active());
    instrument.set_enabled(false);
    assert_eq!(instrument.tick(1_000_000), 0);
}

#[test]
fn chorus_disabled_is_identity() {
    let mut chorus = Chorus::new(48_000);
    assert!(!chorus.is_enabled());
    for x in [0i64, 123, -9_999, 3 * SCALE] {
        assert_eq!(chorus.process(x), x);
    }
}

#[test]
fn chorus_enabled_blends_within_bounds() {
    let mut chorus = Chorus::new(48_000);
    chorus.set_enabled(true);
    chorus.set_mix(SCALE);
    chorus.set_lfo_frequency(2_000);
    chorus.set_base_delay_ms(10);
    assert_eq!(chorus.get_base_delay_ms(), 10);
    chorus.set_modulation_depth_ms(5);
    assert_eq!(chorus.get_modulation_depth_ms(), 5);
    for i in 0..2_000i64 {
        let s = chorus.process((i % 200 - 100) * 600);
        assert!(s.abs() <= FILTER_BOUND);
    }
    chorus.set_enabled(false);
    assert_eq!(chorus.process(77), 77);
}

#[test]
fn chorus_parameter_clamps() {
    let mut chorus = Chorus::new(48_000);
    chorus.set_mix(-4);
    assert_eq!(chorus.get_mix(), 0);
    chorus.set_mix(SCALE * 2);
    assert_eq!(chorus.get_mix(), SCALE);
    chorus.set_lfo_frequency(1);
    assert_eq!(chorus.get_lfo_frequency(), 100);
    chorus.set_lfo_frequency(1_000_000);
    assert_eq!(chorus.get_lfo_frequency(), 10_000);
}

#[test]
fn lfo_square_hits_full_depth() {
    let mut lfo = LFO::new(48_000);
    lfo.set_waveform(LFOWaveform::Square);
    lfo.set_depth(SCALE);
    lfo.set_enabled(true);
    // the first tick sits at the start of the cycle: positive half
    assert_eq!(lfo.tick(0), SCALE);
    // half a cycle of a 2 Hz wave is 250 ms
    assert_eq!(lfo.tick(260_000), -SCALE);
}

#[test]
fn lfo_disabled_is_silent_and_clamped_setters() {
    let mut lfo = LFO::new(44_100);
    assert_eq!(lfo.tick(1_000), 0);
    lfo.set_frequency(1);
    assert_eq!(lfo.get_frequency(), 10);
    lfo.set_frequency(10_000_000);
    assert_eq!(lfo.get_frequency(), 20_000);
    lfo.set_depth(-3);
    assert_eq!(lfo.get_depth(), 0);
    lfo.set_waveform(LFOWaveform::Saw);
    assert!(matches!(lfo.get_waveform(), LFOWaveform::Saw));
    lfo.set_enabled(true);
    assert!(lfo.is_enabled());
    lfo.reset_phase();
    for i in 0..100u64 {
        assert!(lfo.tick(i * 5_000).abs() <= SCALE);
    }
}

#[test]
fn distortion_disabled_is_identity() {
    let mut distortion = SoftClippingDistortion::new(48_000);
    assert!(!distortion.is_enabled());
    for x in [0i64, 1_234, -5_678] {
        assert_eq!(distortion.process(x), x);
    }
}

#[test]
fn distortion_enabled_stays_bounded() {
    let mut distortion = SoftClippingDistortion::with_config(
        48_000,
        DistortionConfig::aggressive(),
    );
    distortion.set_enabled(true);
    for i in 0..500i64 {
        let s = distortion.process((i % 100 - 50) * 10_000);
        assert!(s.abs() <= FILTER_BOUND);
    }
    distortion.reset();
    distortion.set_drive(SCALE * 3);
    distortion.set_output_gain(-1);
    assert_eq!(distortion.config.drive, SCALE);
    assert_eq!(distortion.config.output_gain, 0);
    let presets = [
        DistortionConfig::default(),
        DistortionConfig::subtle(),
        DistortionConfig::warm(),
    ];
    for preset in presets {
        distortion.set_config(preset);
        assert_eq!(distortion.config, preset);
    }
}

#[test]
fn hihat_closed_is_shorter_than_open() {
    let mut closed = HiHat::new_closed(48_000);
    let mut open = HiHat::new_open(48_000);
    closed.trigger(0);
    open.trigger(0);
    let mut closed_end: Option<u64> = None;
    let mut open_end: Option<u64> = None;
    for i in 1..2_000u64 {
        let t = i * 1_000;
        let a = closed.tick(t);
        let b = open.tick(t);
        assert!(a.abs() <= FILTER_BOUND);
        assert!(b.abs() <= FILTER_BOUND);
        if !closed.is_active() && closed_end.is_none() {
            closed_end = Some(t);
        }
        if !open.is_active() && open_end.is_none() {
            open_end = Some(t);
        }
    }
    let closed_end = closed_end.expect("closed hat never retired");
    let open_end = open_end.expect("open hat never retired");
    assert!(closed_end < open_end);
}

#[test]
fn hihat_presets_and_setters() {
    for config in [
        HiHatConfig::closed_default(),
        HiHatConfig::open_default(),
        HiHatConfig::closed_tight(),
        HiHatConfig::open_bright(),
        HiHatConfig::closed_dark(),
        HiHatConfig::open_long(),
    ] {
        let mut hat = HiHat::with_config(48_000, config);
        hat.trigger(0);
        for i in 1..50u64 {
            assert!(hat.tick(i * 1_000).abs() <= FILTER_BOUND);
        }
    }
    let mut hat = HiHat::new(44_100);
    hat.set_volume(-3);
    assert_eq!(hat.config.volume, 0);
    hat.set_frequency(1);
    assert_eq!(hat.config.base_frequency, 1_000_000);
    hat.set_decay(0);
    assert_eq!(hat.config.decay_time, 1_000);
    hat.set_brightness(SCALE * 9);
    assert_eq!(hat.config.brightness, SCALE);
    hat.set_open(true);
    assert!(hat.config.is_open);
    assert_eq!(hat.tick(0), 0);
}

#[test]
fn tom_scenario_bounded_and_retires() {
    let mut tom = TomDrum::new(48_000);
    tom.trigger(0);
    assert!(tom.is_active());
    let mut retired = false;
    for i in 1..=300u64 {
        let t = i * 10_000;
        let s = tom.tick(t);
        assert!(s.abs() <= FILTER_BOUND);
        if !tom.is_active() {
            retired = true;
        }
    }
    assert!(retired);
}

#[test]
fn tom_presets_and_clamps() {
    for config in [
        TomConfig::default(),
        TomConfig::high_tom(),
        TomConfig::mid_tom(),
        TomConfig::low_tom(),
        TomConfig::floor_tom(),
    ] {
        let mut tom = TomDrum::with_config(44_100, config);
        tom.trigger(0);
        for i in 1..50u64 {
            assert!(tom.tick(i * 1_000).abs() <= FILTER_BOUND);
        }
    }
    let config = TomConfig::new(1, -1, SCALE * 2, 0, -9, SCALE * 3);
    assert_eq!(config.tom_frequency, 60_000);
    assert_eq!(config.tonal_amount, 0);
    assert_eq!(config.punch_amount, SCALE);
    assert_eq!(config.decay_time, 10_000);
    assert_eq!(config.pitch_drop, 0);
    assert_eq!(config.volume, SCALE);
}
