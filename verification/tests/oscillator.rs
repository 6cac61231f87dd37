use audio_lib::{CallbackResult, Sample, SineParam, SineWave, StereoSample, GAIN_ONE, TURN};

fn render(s: &Sample) -> f32 {
    let phase = s.phase as f64 / TURN as f64 * std::f64::consts::TAU;
    (s.gain as f64 / GAIN_ONE as f64 * phase.sin()) as f32
}

fn advance(phase: u64, delta: u64) -> u64 {
    let mut p = phase + delta;
    while p > TURN {
        p -= TURN;
    }
    p
}

#[test]
fn first_sample_is_at_phase_zero() {
    let mut p = SineParam::default();
    p.set_sample_rate(48_000);
    let mut w = SineWave::new();
    let s = w.next(&p);
    assert_eq!(s.phase, 0);
    assert_eq!(s.gain, GAIN_ONE / 2);
    assert_eq!(w.phase, 39_370_533);
}

#[test]
fn sample_stream_matches_recurrence() {
    let mut p = SineParam::default();
    p.set_sample_rate(44_100);
    p.set_gain(7);
    let mut w = SineWave::new();
    let mut expected: u64 = 0;
    for _ in 0..500 {
        let s = w.next(&p);
        assert_eq!(s.phase, expected);
        assert_eq!(s.gain, 7);
        expected = advance(expected, p.delta);
        assert_eq!(w.phase, expected);
    }
}

#[test]
fn phase_stays_within_one_turn() {
    let mut p = SineParam::default();
    p.set_sample_rate(1);
    p.set_frequency(4_000_000_000);
    assert_eq!(p.delta, 17_179_869_184_000_000);
    let mut w = SineWave::new();
    for _ in 0..50 {
        w.next(&p);
        assert!(w.phase <= TURN);
    }
}

#[test]
fn exact_full_turn_is_kept() {
    let mut p = SineParam::default();
    p.set_sample_rate(48_000);
    p.set_frequency(48_000_000);
    assert_eq!(p.delta, TURN);
    let mut w = SineWave::new();
    let s1 = w.next(&p);
    assert_eq!(s1.phase, 0);
    assert_eq!(w.phase, TURN, "a phase of exactly one turn is not wrapped to zero");
    let s2 = w.next(&p);
    assert_eq!(s2.phase, TURN);
    assert_eq!(w.phase, TURN);
}

#[test]
fn mono_fill_writes_every_slot() {
    let mut p = SineParam::default();
    p.set_sample_rate(48_000);
    let mut w = SineWave::new();
    let mut frames = vec![Sample { phase: 1, gain: 1 }; 64];
    let r = w.on_audio_ready(&p, &mut frames);
    assert_eq!(r, CallbackResult::Continue);
    assert_eq!(frames.len(), 64);
    let mut expected: u64 = 0;
    for s in &frames {
        assert_eq!(s.phase, expected);
        assert_eq!(s.gain, p.gain);
        expected = advance(expected, p.delta);
    }
    assert_eq!(w.phase, expected);
}

#[test]
fn stereo_matches_mono() {
    let mut p = SineParam::default();
    p.set_sample_rate(48_000);
    let mut mono_wave = SineWave::new();
    let mut stereo_wave = SineWave::new();
    let mut mono = vec![Sample { phase: 0, gain: 0 }; 64];
    let mut stereo = vec![
        StereoSample {
            left: Sample { phase: 0, gain: 0 },
            right: Sample { phase: 0, gain: 0 },
        };
        64
    ];
    mono_wave.on_audio_ready(&p, &mut mono);
    let r = stereo_wave.on_audio_ready_stereo(&p, &mut stereo);
    assert_eq!(r, CallbackResult::Continue);
    for i in 0..64 {
        assert_eq!(stereo[i].left, stereo[i].right);
        assert_eq!(stereo[i].left, mono[i]);
        assert_eq!(render(&stereo[i].left), render(&mono[i]));
    }
    assert_eq!(stereo_wave.phase, mono_wave.phase);
}

#[test]
fn zero_gain_is_silence() {
    let mut p = SineParam::default();
    p.set_sample_rate(48_000);
    p.set_gain(0);
    let mut w = SineWave::new();
    let mut frames = vec![Sample { phase: 0, gain: 1 }; 100];
    w.on_audio_ready(&p, &mut frames);
    for s in &frames {
        assert_eq!(s.gain, 0);
        assert_eq!(render(s), 0.0);
    }
}

#[test]
fn full_cycle_at_concert_pitch() {
    let mut p = SineParam::default();
    p.set_sample_rate(48_000);
    assert_eq!(p.gain, GAIN_ONE / 2);
    let mut w = SineWave::new();
    let mut frames = vec![Sample { phase: 0, gain: 0 }; 111];
    w.on_audio_ready(&p, &mut frames);
    let rendered: Vec<f32> = frames.iter().map(render).collect();
    assert_eq!(rendered[0], 0.0, "the first sample, at phase zero, is exactly zero");
    // 48000 / 440 is about 109 steps per cycle: the wave is back near
    // zero and rising again.
    assert!(rendered[109].abs() < 0.01);
    assert!(rendered[110] > rendered[109]);
    assert!(rendered[110] > 0.0);
}
