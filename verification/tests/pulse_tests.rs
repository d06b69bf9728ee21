use rustle::config::{PulseConfig, PulseMode};
use rustle::pulse::{
    duty_interval, duty_pulse_len, fixed_sample_count, render_fixed, sample_at, tone_sample,
    PulseSynth,
};

#[test]
fn fixed_sample_count_is_rate_times_duration_rounded() {
    // 44100 Hz for 10 s.
    assert_eq!(fixed_sample_count(44_100, 10_000), 441_000);
    // 44100 Hz for 10.001 s: 441044.1 rounds down.
    assert_eq!(fixed_sample_count(44_100, 10_001), 441_044);
    // 3 Hz for 0.5 s: 1.5 rounds up to 2.
    assert_eq!(fixed_sample_count(3, 500), 2);
    // 1 Hz for 0.4 s: 0.4 rounds down to 0.
    assert_eq!(fixed_sample_count(1, 400), 0);
}

#[test]
fn rendered_fixed_tone_has_exact_count_and_bounded_samples() {
    let cfg =
        PulseConfig::validate(20, 10_000, PulseMode::Fixed { duration_ms: 1000 }, 8000).unwrap();
    let out = render_fixed(&cfg, 8000);
    assert_eq!(out.len(), 8000);
    for (i, &s) in out.iter().enumerate() {
        assert!(s.abs() <= 10_000, "sample {i} out of range: {s}");
        assert_eq!(s, sample_at(&cfg, 8000, i as u64));
    }
    // The tone actually moves: not every sample is zero.
    assert!(out.iter().any(|&s| s != 0));
}

#[test]
fn tone_hits_zero_and_crest_exactly() {
    // At 1 Hz over 1024 samples per second, sample i sits at phase unit i:
    // zeros at the half-wave ends, the full amplitude at the crests.
    let amp = 10_000u32;
    assert_eq!(tone_sample(1, amp, 1024, 0), 0);
    assert_eq!(tone_sample(1, amp, 1024, 256), 10_000);
    assert_eq!(tone_sample(1, amp, 1024, 512), 0);
    assert_eq!(tone_sample(1, amp, 1024, 768), -10_000);
    assert_eq!(tone_sample(1, amp, 1024, 1024), 0);
    // One interior point of the rational half-wave formula:
    // 10000 * 16 * 128 * 384 / (1310720 - 4 * 128 * 384) = 7058.
    assert_eq!(tone_sample(1, amp, 1024, 128), 7058);
    // The sequence is a pure function of the index: a later cycle repeats.
    assert_eq!(tone_sample(1, amp, 1024, 1024 + 256), 10_000);
}

#[test]
fn tone_is_bounded_by_amplitude() {
    for i in 0..5000u64 {
        let s = tone_sample(440, 250_000, 44_100, i);
        assert!(-250_000 <= s && s <= 250_000);
    }
}

#[test]
fn duty_cycle_windows_start_with_tone_and_end_with_exact_zero() {
    // 100 samples/s, 10 pulses/s, each pulse 20 ms: every window of 10
    // samples carries the tone on its first 2 samples and exact zeros on
    // the other 8, with the phase reset at each window start.
    let mode = PulseMode::DutyCycled { pulse_rate_hz: 10, pulse_duration_ms: 20 };
    let cfg = PulseConfig::validate(1, 1000, mode, 100).unwrap();
    assert_eq!(duty_interval(100, 10), 10);
    assert_eq!(duty_pulse_len(100, 20), 2);
    for i in 0..100u64 {
        let s = sample_at(&cfg, 100, i);
        let j = i % 10;
        if j < 2 {
            assert_eq!(s, tone_sample(1, 1000, 100, j), "tone sample at {i}");
        } else {
            assert_eq!(s, 0, "expected exact zero at {i}");
        }
    }
}

#[test]
fn duty_interval_rounds_to_nearest() {
    // 44100 / 10 = 4410 exactly.
    assert_eq!(duty_interval(44_100, 10), 4410);
    // 100 / 3 = 33.33 rounds down to 33.
    assert_eq!(duty_interval(100, 3), 33);
    // 100 / 8 = 12.5 rounds up to 13.
    assert_eq!(duty_interval(100, 8), 13);
}

#[test]
fn synth_fixed_stream_ends_after_its_count() {
    let cfg =
        PulseConfig::validate(5, 2000, PulseMode::Fixed { duration_ms: 50 }, 1000).unwrap();
    let mut synth = PulseSynth::new(cfg, 1000);
    let mut produced: Vec<i64> = Vec::new();
    while let Some(s) = synth.next_sample() {
        produced.push(s);
    }
    assert_eq!(produced.len(), 50);
    for (i, &s) in produced.iter().enumerate() {
        assert_eq!(s, sample_at(&cfg, 1000, i as u64));
    }
    assert_eq!(synth.next_sample(), None);
}

#[test]
fn synth_is_restartable() {
    let cfg = PulseConfig::validate(20, 10_000, PulseMode::Continuous, 8000).unwrap();
    let mut synth = PulseSynth::new(cfg, 8000);
    let first: Vec<Option<i64>> = (0..32).map(|_| synth.next_sample()).collect();
    synth.reset();
    let again: Vec<Option<i64>> = (0..32).map(|_| synth.next_sample()).collect();
    assert_eq!(first, again);
    // Continuous mode never ends.
    for _ in 0..1000 {
        assert!(synth.next_sample().is_some());
    }
}
