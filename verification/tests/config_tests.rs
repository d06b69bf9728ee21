use rustle::config::{ConfigError, PulseConfig, PulseMode, ScheduleConfig, SuspendConfig};

#[test]
fn schedule_accepts_the_defaults() {
    let c = ScheduleConfig::validate(10, 1, 1000).unwrap();
    assert_eq!(c.silence_threshold_min, 10);
    assert_eq!(c.tick_secs, 1);
    assert_eq!(c.rms_threshold_micro, 1000);
}

#[test]
fn schedule_rejects_bad_timing() {
    assert_eq!(ScheduleConfig::validate(10, 0, 0), Err(ConfigError::ZeroTickInterval));
    assert_eq!(ScheduleConfig::validate(10, 86_401, 0), Err(ConfigError::TickIntervalTooLarge));
    assert_eq!(ScheduleConfig::validate(0, 1, 0), Err(ConfigError::ZeroSilenceThreshold));
    assert_eq!(
        ScheduleConfig::validate(1_000_001, 1, 0),
        Err(ConfigError::SilenceThresholdTooLarge)
    );
}

#[test]
fn suspend_accepts_disabled_and_bounded_values() {
    let off = SuspendConfig::validate(0, 0).unwrap();
    assert_eq!(off.suspend_threshold_min, 0);
    let on = SuspendConfig::validate(30, 2_500).unwrap();
    assert_eq!(on.suspend_threshold_min, 30);
    assert_eq!(on.cpu_ceiling_centi, 2_500);
}

#[test]
fn suspend_rejects_out_of_range_values() {
    assert_eq!(SuspendConfig::validate(1_000_001, 0), Err(ConfigError::SuspendThresholdTooLarge));
    assert_eq!(SuspendConfig::validate(5, 10_001), Err(ConfigError::CpuCeilingTooLarge));
}

#[test]
fn pulse_accepts_each_mode() {
    let c = PulseConfig::validate(20, 10_000, PulseMode::Continuous, 44_100).unwrap();
    assert_eq!(c.frequency_hz, 20);
    assert_eq!(c.amplitude, 10_000);
    PulseConfig::validate(20, 10_000, PulseMode::Fixed { duration_ms: 10_000 }, 44_100).unwrap();
    let duty = PulseMode::DutyCycled { pulse_rate_hz: 10, pulse_duration_ms: 50 };
    PulseConfig::validate(20, 10_000, duty, 44_100).unwrap();
}

#[test]
fn pulse_rejects_each_bad_field() {
    let fixed = PulseMode::Fixed { duration_ms: 10_000 };
    assert_eq!(
        PulseConfig::validate(0, 1, fixed, 44_100),
        Err(ConfigError::ZeroFrequency)
    );
    assert_eq!(
        PulseConfig::validate(20, 1, fixed, 0),
        Err(ConfigError::SampleRateOutOfRange)
    );
    assert_eq!(
        PulseConfig::validate(20, 1, fixed, 1_000_001),
        Err(ConfigError::SampleRateOutOfRange)
    );
    assert_eq!(
        PulseConfig::validate(20, 1, PulseMode::Fixed { duration_ms: 0 }, 44_100),
        Err(ConfigError::ZeroDuration)
    );
    assert_eq!(
        PulseConfig::validate(20, 1, PulseMode::Fixed { duration_ms: 1_000_000_001 }, 44_100),
        Err(ConfigError::DurationTooLarge)
    );
    assert_eq!(
        PulseConfig::validate(
            20,
            1,
            PulseMode::DutyCycled { pulse_rate_hz: 0, pulse_duration_ms: 50 },
            44_100
        ),
        Err(ConfigError::ZeroPulseRate)
    );
    assert_eq!(
        PulseConfig::validate(
            20,
            1,
            PulseMode::DutyCycled { pulse_rate_hz: 44_101, pulse_duration_ms: 50 },
            44_100
        ),
        Err(ConfigError::PulseRateAboveSampleRate)
    );
    assert_eq!(
        PulseConfig::validate(
            20,
            1,
            PulseMode::DutyCycled { pulse_rate_hz: 10, pulse_duration_ms: 1_000_001 },
            44_100
        ),
        Err(ConfigError::PulseDurationTooLarge)
    );
}
