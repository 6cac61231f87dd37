use audio_lib::{SineParam, GAIN_ONE, TURN};

#[test]
fn default_parameters() {
    let p = SineParam::default();
    assert_eq!(p.frequency_mhz, 440_000);
    assert_eq!(p.gain, GAIN_ONE / 2);
    assert_eq!(p.sample_rate_hz, 0);
    assert_eq!(p.delta, 0);
}

#[test]
fn commit_rate_then_frequency() {
    let mut p = SineParam::default();
    p.set_sample_rate(48_000);
    assert_eq!(p.sample_rate_hz, 48_000);
    assert_eq!(p.delta, 39_370_533);
    p.set_frequency(440_000);
    assert_eq!(p.delta, 39_370_533);
    p.set_frequency(880_000);
    assert_eq!(p.frequency_mhz, 880_000);
    assert_eq!(p.delta, 78_741_067);
    p.set_frequency(220_000);
    assert_eq!(p.delta, 19_685_266);
}

#[test]
fn commit_frequency_then_rate() {
    let mut p = SineParam::default();
    p.set_frequency(880_000);
    assert_eq!(p.frequency_mhz, 880_000);
    assert_eq!(p.delta, 0, "no rate committed yet: the increment is deferred");
    p.set_sample_rate(48_000);
    assert_eq!(p.delta, 78_741_067);
}

#[test]
fn gain_commit_touches_nothing_else() {
    let mut p = SineParam::default();
    p.set_sample_rate(48_000);
    p.set_gain(12_345);
    assert_eq!(p.gain, 12_345);
    assert_eq!(p.frequency_mhz, 440_000);
    assert_eq!(p.sample_rate_hz, 48_000);
    assert_eq!(p.delta, 39_370_533);
}

#[test]
fn delta_matches_radian_formula() {
    let mut p = SineParam::default();
    p.set_sample_rate(48_000);
    let radians = p.delta as f64 / TURN as f64 * std::f64::consts::TAU;
    let expected = std::f64::consts::TAU * 440.0 / 48_000.0;
    assert!((radians - expected).abs() < 1e-6);
    assert!((radians - 0.05760).abs() < 1e-4);
}
