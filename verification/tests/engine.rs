//! Engine-level checks: envelope shape, sine fidelity, band limiting,
//! limiter, compressor transparency and the sequencer clock.

use oscillator::compressor::Compressor;
use oscillator::envelope::{ADSRConfig, Envelope};
use oscillator::fixed::{mul_q, sine_q, soft_clip_q};
use oscillator::oscillator::Oscillator;
use oscillator::stage::{BrickWallLimiter, Sequencer, Stage};
use oscillator::waveform::Waveform;
use oscillator::SCALE;

fn sustain_config() -> ADSRConfig {
    ADSRConfig::new(1, 1, SCALE, 600_000_000)
}

#[test]
fn envelope_profile_exact() {
    let config = ADSRConfig::new(100_000, 200_000, 32_768, 400_000);
    let mut env = Envelope::with_config(config);
    env.trigger(1_000_000);
    assert_eq!(env.get_amplitude(1_000_000), 0);
    assert_eq!(env.get_amplitude(1_050_000), 32_768);
    assert_eq!(env.get_amplitude(1_100_000), 65_536);
    assert_eq!(env.get_amplitude(1_200_000), 49_152);
    assert_eq!(env.get_amplitude(1_300_000), 32_768);
    assert_eq!(env.get_amplitude(1_500_000), 16_384);
    assert_eq!(env.get_amplitude(1_700_000), 0);
    assert!(!env.is_active);
}

#[test]
fn envelope_monotone_through_attack() {
    let config = ADSRConfig::new(50_000, 100_000, 0, 100_000);
    let mut env = Envelope::with_config(config);
    env.trigger(0);
    let mut last = -1i64;
    for i in 0..=50 {
        let amp = env.get_amplitude(i * 1_000);
        assert!(amp >= last);
        assert!((0..=SCALE).contains(&amp));
        last = amp;
    }
    assert_eq!(last, SCALE);
}

#[test]
fn envelope_inactive_is_silent() {
    let mut env = Envelope::new();
    assert_eq!(env.get_amplitude(123_456), 0);
}

#[test]
fn envelope_retrigger_restarts_from_zero() {
    let config = ADSRConfig::new(100_000, 100_000, 0, 100_000);
    let mut env = Envelope::with_config(config);
    env.trigger(0);
    assert!(env.get_amplitude(50_000) > 0);
    env.trigger(50_000);
    assert_eq!(env.get_amplitude(50_000), 0);
}

#[test]
fn sine_matches_reference_within_tolerance() {
    let mut frac: u32 = 0;
    while frac < 65_536 {
        let got = sine_q(frac) as f64 / 65_536.0;
        let x = 2.0 * std::f64::consts::PI * (frac as f64) / 65_536.0;
        let want = x.sin();
        assert!((got - want).abs() < 0.005, "frac {} got {} want {}", frac, got, want);
        frac += 37;
    }
}

#[test]
fn sine_oscillator_repeats_with_period_sr_over_f() {
    let mut osc = Oscillator::new(48_000, 1_000_000);
    osc.waveform = Waveform::Sine;
    osc.set_adsr(sustain_config());
    osc.trigger(0);
    let mut samples = Vec::new();
    for i in 0..120u64 {
        samples.push(osc.tick(100 + i));
    }
    for i in 0..60 {
        assert_eq!(samples[i], samples[i + 48]);
    }
}

#[test]
fn square_above_last_harmonic_is_pure_fundamental() {
    // at 1500 Hz under an 8 kHz rate the third harmonic passes Nyquist,
    // so the band-limited square is its fundamental alone
    let mut square = Oscillator::new(8_000, 1_500_000);
    square.waveform = Waveform::Square;
    square.set_adsr(sustain_config());
    square.trigger(0);
    let mut sine = Oscillator::new(8_000, 1_500_000);
    sine.waveform = Waveform::Sine;
    sine.set_adsr(sustain_config());
    sine.trigger(0);
    for i in 0..200u64 {
        assert_eq!(square.tick(100 + i), sine.tick(100 + i));
    }
}

#[test]
fn limiter_clamps_and_passes_through() {
    let limiter = BrickWallLimiter::new(SCALE);
    assert_eq!(limiter.process(200_000), SCALE);
    assert_eq!(limiter.process(-200_000), -SCALE);
    assert_eq!(limiter.process(12_345), 12_345);
    assert_eq!(limiter.process(-SCALE), -SCALE);
    assert_eq!(limiter.process(0), 0);
    for x in [i64::MIN + 1, -1, 1, i64::MAX, 65_537, -65_537] {
        let y = limiter.process(x);
        assert!((-SCALE..=SCALE).contains(&y));
    }
}

#[test]
fn compressor_unit_ratio_is_transparent() {
    let mut comp = Compressor::new(48_000);
    comp.enabled = true;
    comp.ratio = SCALE;
    comp.makeup_gain_db = 0;
    for x in [0i64, 100, -5_000, 65_536, -4_000_000, 549_755_813_887] {
        assert_eq!(comp.process(x), x);
    }
}

#[test]
fn compressor_disabled_is_identity() {
    let mut comp = Compressor::new(44_100);
    for x in [0i64, 42, -9_999_999] {
        assert_eq!(comp.process(x), x);
    }
}

#[test]
fn compressor_reduces_loud_signals() {
    let mut comp = Compressor::new(48_000);
    comp.enabled = true;
    comp.set_attack(1);
    // drive the follower far above the -12 dB threshold
    let mut out = 0i64;
    for _ in 0..2_000 {
        out = comp.process(4 * SCALE);
    }
    assert!(out < 4 * SCALE);
    assert!(out > 0);
}

#[test]
fn compressor_time_getters_round_trip() {
    let mut comp = Compressor::new(48_000);
    assert_eq!(comp.get_attack(), 3_000);
    assert_eq!(comp.get_release(), 100_000);
    comp.set_attack(7_500);
    comp.set_release(250_000);
    assert_eq!(comp.get_attack(), 7_500);
    assert_eq!(comp.get_release(), 250_000);
}

#[test]
fn sequencer_advances_every_125_ms_at_120_bpm() {
    let mut stage = Stage::new(48_000);
    stage.add(Oscillator::new(48_000, 100_000));
    stage.sequencer_set_step(0, 0, true);
    stage.sequencer_play();
    assert_eq!(stage.sequencer_get_bpm(), 120);
    let mut last_change: Option<u64> = None;
    let mut gaps = Vec::new();
    let mut step = stage.sequencer_get_current_step();
    for ms in 0..1_000u64 {
        let t = ms * 1_000;
        stage.tick(t);
        let now = stage.sequencer_get_current_step();
        if now != step {
            if let Some(prev) = last_change {
                gaps.push(ms - prev);
            }
            last_change = Some(ms);
            step = now;
        }
    }
    assert!(gaps.len() >= 6);
    for gap in gaps {
        assert_eq!(gap, 125);
    }
}

#[test]
fn sequencer_fires_cells_of_the_new_step() {
    // the sequencer advances first and then fires the cells of the step it
    // landed on: a cell at step 1 fires at the first boundary...
    let mut stage = Stage::new(48_000);
    stage.add(Oscillator::new(48_000, 440_000));
    stage.sequencer_set_step(0, 1, true);
    stage.sequencer_play();
    stage.tick(0);
    assert!(!stage.instruments[0].envelope.is_active);
    stage.tick(125_000);
    assert_eq!(stage.sequencer_get_current_step(), 1);
    assert!(stage.instruments[0].envelope.is_active);
    assert_eq!(stage.instruments[0].envelope.trigger_time, 125_000);
    // ...while a cell at the step being left does not
    let mut other = Stage::new(48_000);
    other.add(Oscillator::new(48_000, 440_000));
    other.sequencer_set_step(0, 0, true);
    other.sequencer_play();
    other.tick(0);
    other.tick(125_000);
    assert!(!other.instruments[0].envelope.is_active);
}

#[test]
fn sequencer_step_round_trip() {
    let mut seq = Sequencer::new();
    for instrument in 0..4usize {
        for step in 0..16usize {
            assert!(!seq.get_step(instrument, step));
            seq.set_step(instrument, step, true);
            assert!(seq.get_step(instrument, step));
            seq.set_step(instrument, step, false);
            assert!(!seq.get_step(instrument, step));
        }
    }
    // out of range: always false, setting is a no-op
    assert!(!seq.get_step(4, 0));
    assert!(!seq.get_step(0, 16));
    seq.set_step(4, 3, true);
    seq.set_step(1, 16, true);
    for instrument in 0..4usize {
        for step in 0..16usize {
            assert!(!seq.get_step(instrument, step));
        }
    }
}

#[test]
fn sequencer_bpm_clamped_and_interval_updates() {
    let mut seq = Sequencer::new();
    seq.set_bpm(300);
    assert_eq!(seq.bpm, 180);
    assert_eq!(seq.step_interval, 15_000_000 / 180);
    seq.set_bpm(10);
    assert_eq!(seq.bpm, 60);
    assert_eq!(seq.step_interval, 250_000);
    seq.set_bpm(120);
    assert_eq!(seq.step_interval, 125_000);
}

#[test]
fn sequencer_advance_wraps_at_sixteen() {
    let mut seq = Sequencer::new();
    for expected in 1..40usize {
        seq.advance_step();
        assert_eq!(seq.current_step, expected % 16);
    }
}

#[test]
fn stage_output_stays_inside_limiter_ceiling() {
    let mut stage = Stage::new(44_100);
    for _ in 0..4 {
        let mut osc = Oscillator::new(44_100, 2_000_000);
        osc.waveform = Waveform::Saw;
        stage.add(osc);
    }
    stage.trigger_all(0);
    for i in 0..500u64 {
        let s = stage.tick(i * 23);
        assert!((-SCALE..=SCALE).contains(&s));
    }
}

#[test]
fn stage_out_of_range_accessors_return_defaults() {
    let stage = Stage::new(48_000);
    assert_eq!(stage.get_instrument_volume(5), 0);
    assert_eq!(stage.get_instrument_frequency(5), 0);
    assert_eq!(stage.get_instrument_modulator_frequency(5), 0);
    assert!(!stage.is_instrument_enabled(5));
    assert!(matches!(stage.get_instrument_waveform(5), Waveform::Sine));
}

#[test]
fn stage_parameter_pass_throughs() {
    let mut stage = Stage::new(48_000);
    stage.add(Oscillator::new(48_000, 440_000));
    stage.set_instrument_volume(0, 99_999);
    assert_eq!(stage.get_instrument_volume(0), SCALE);
    stage.set_instrument_volume(0, 30_000);
    assert_eq!(stage.get_instrument_volume(0), 30_000);
    stage.set_instrument_frequency(0, 880_000);
    assert_eq!(stage.get_instrument_frequency(0), 880_000);
    stage.set_instrument_waveform(0, Waveform::Triangle);
    assert!(matches!(stage.get_instrument_waveform(0), Waveform::Triangle));
    stage.set_instrument_modulator_frequency(0, 220_000);
    assert_eq!(stage.get_instrument_modulator_frequency(0), 220_000);
    stage.set_instrument_enabled(0, false);
    assert!(!stage.is_instrument_enabled(0));
    stage.set_limiter_threshold(32_768);
    assert_eq!(stage.get_limiter_threshold(), 32_768);
}

#[test]
fn disabled_oscillator_is_silent_and_frozen() {
    let mut osc = Oscillator::new(48_000, 440_000);
    osc.set_adsr(sustain_config());
    osc.trigger(0);
    osc.set_enabled(false);
    let phase = osc.current_sample_index;
    for i in 0..10u64 {
        assert_eq!(osc.tick(i), 0);
    }
    assert_eq!(osc.current_sample_index, phase);
}

#[test]
fn soft_clip_bounds_and_zero() {
    assert_eq!(soft_clip_q(0), 0);
    for x in [1i64, -1, 65_536, -65_536, 1_000_000_000, -1_000_000_000] {
        let y = soft_clip_q(x);
        assert!(y.abs() < SCALE);
        assert!(x.signum() * y >= 0);
    }
    // halfway compression at one full-scale unit
    assert_eq!(soft_clip_q(SCALE), SCALE / 2);
}

#[test]
fn mul_q_matches_scaled_product() {
    assert_eq!(mul_q(SCALE, SCALE), SCALE);
    assert_eq!(mul_q(2 * SCALE, 3 * SCALE), 6 * SCALE);
    assert_eq!(mul_q(-SCALE / 2, SCALE), -SCALE / 2);
    assert_eq!(mul_q(100, 0), 0);
    assert_eq!(mul_q(-3, 65_536), -3);
}
