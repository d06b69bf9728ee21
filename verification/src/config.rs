//! Configuration of the engine, in plain integer units.
//!
//! Amplitudes are carried in millionths of full scale (`SAMPLE_SCALE`),
//! CPU usage in hundredths of a percent (`CPU_USAGE_MAX` = 100.00%).
//! Each configuration struct has a well-formedness predicate `wf` that the
//! validating constructor establishes and every consumer requires; the
//! bounds exist only so that accumulator and sample arithmetic stays far
//! below `u64::MAX`.

use vstd::prelude::*;

verus! {

/// A sample value of `SAMPLE_SCALE` stands for an amplitude of 1.0.
pub const SAMPLE_SCALE: u32 = 1_000_000;

/// Largest meaningful CPU usage value: 100.00 percent, in hundredths.
pub const CPU_USAGE_MAX: u64 = 10_000;

/// Largest accepted tick interval, in seconds (one day).
pub const MAX_TICK_SECS: u64 = 86_400;

/// Largest accepted silence or suspend threshold, in minutes.
pub const MAX_THRESHOLD_MIN: u64 = 1_000_000;

/// Accepted sample rate range, in Hz.
pub const MAX_SAMPLE_RATE: u32 = 1_000_000;

/// Largest accepted fixed tone duration, in milliseconds.
pub const MAX_DURATION_MS: u64 = 1_000_000_000;

/// Largest accepted duty-cycle pulse duration, in milliseconds.
pub const MAX_PULSE_DURATION_MS: u64 = 1_000_000;

/// Why a configuration was rejected.
#[derive(Clone, Copy, Debug, PartialEq, Eq, Structural)]
pub enum ConfigError {
    ZeroTickInterval,
    TickIntervalTooLarge,
    ZeroSilenceThreshold,
    SilenceThresholdTooLarge,
    SuspendThresholdTooLarge,
    CpuCeilingTooLarge,
    ZeroFrequency,
    SampleRateOutOfRange,
    ZeroDuration,
    DurationTooLarge,
    ZeroPulseRate,
    PulseRateAboveSampleRate,
    PulseDurationTooLarge,
}

/// Timing of the silence scheduler and the activity probe.
#[derive(Clone, Copy, Debug, PartialEq, Eq, Structural)]
pub struct ScheduleConfig {
    /// Minutes of continuous silence before a keep-alive pulse is due.
    pub silence_threshold_min: u64,
    /// Seconds between two probe readings.
    pub tick_secs: u64,
    /// RMS level, in millionths of full scale, at or above which a monitor
    /// buffer counts as audible.
    pub rms_threshold_micro: u32,
}

impl ScheduleConfig {
    pub open spec fn wf(self) -> bool {
        &&& 1 <= self.tick_secs <= MAX_TICK_SECS
        &&& 1 <= self.silence_threshold_min <= MAX_THRESHOLD_MIN
    }

    /// Seconds of accumulated silence at which a pulse fires.
    pub open spec fn threshold_secs(self) -> int {
        self.silence_threshold_min * 60
    }

    pub open spec fn spec_validate(
        silence_threshold_min: u64,
        tick_secs: u64,
        rms_threshold_micro: u32,
    ) -> Result<ScheduleConfig, ConfigError> {
        if tick_secs == 0 {
            Err(ConfigError::ZeroTickInterval)
        } else if tick_secs > MAX_TICK_SECS {
            Err(ConfigError::TickIntervalTooLarge)
        } else if silence_threshold_min == 0 {
            Err(ConfigError::ZeroSilenceThreshold)
        } else if silence_threshold_min > MAX_THRESHOLD_MIN {
            Err(ConfigError::SilenceThresholdTooLarge)
        } else {
            Ok(ScheduleConfig { silence_threshold_min, tick_secs, rms_threshold_micro })
        }
    }

    /// Checks the bounds above and builds the config; the result is `Ok`
    /// exactly when every bound holds.
    pub fn validate(
        silence_threshold_min: u64,
        tick_secs: u64,
        rms_threshold_micro: u32,
    ) -> (r: Result<ScheduleConfig, ConfigError>)
        ensures
            r == Self::spec_validate(silence_threshold_min, tick_secs, rms_threshold_micro),
            r matches Ok(c) ==> c.wf(),
            r is Ok <==> (1 <= tick_secs <= MAX_TICK_SECS
                && 1 <= silence_threshold_min <= MAX_THRESHOLD_MIN),
    {
        if tick_secs == 0 {
            Err(ConfigError::ZeroTickInterval)
        } else if tick_secs > MAX_TICK_SECS {
            Err(ConfigError::TickIntervalTooLarge)
        } else if silence_threshold_min == 0 {
            Err(ConfigError::ZeroSilenceThreshold)
        } else if silence_threshold_min > MAX_THRESHOLD_MIN {
            Err(ConfigError::SilenceThresholdTooLarge)
        } else {
            Ok(ScheduleConfig { silence_threshold_min, tick_secs, rms_threshold_micro })
        }
    }
}

/// When the host may be told to suspend.
#[derive(Clone, Copy, Debug, PartialEq, Eq, Structural)]
pub struct SuspendConfig {
    /// Minutes of continuous silence before a suspend is due;
    /// 0 disables the suspend gate entirely.
    pub suspend_threshold_min: u64,
    /// Highest smoothed CPU usage, in hundredths of a percent, at which a
    /// suspend is still allowed; 0 means no ceiling.
    pub cpu_ceiling_centi: u64,
}

impl SuspendConfig {
    pub open spec fn wf(self) -> bool {
        &&& self.suspend_threshold_min <= MAX_THRESHOLD_MIN
        &&& self.cpu_ceiling_centi <= CPU_USAGE_MAX
    }

    /// The suspend machinery is inert when the threshold is zero.
    pub open spec fn enabled(self) -> bool {
        self.suspend_threshold_min != 0
    }

    /// Seconds of accumulated system silence at which a suspend is due.
    pub open spec fn threshold_secs(self) -> int {
        self.suspend_threshold_min * 60
    }

    pub open spec fn spec_validate(
        suspend_threshold_min: u64,
        cpu_ceiling_centi: u64,
    ) -> Result<SuspendConfig, ConfigError> {
        if suspend_threshold_min > MAX_THRESHOLD_MIN {
            Err(ConfigError::SuspendThresholdTooLarge)
        } else if cpu_ceiling_centi > CPU_USAGE_MAX {
            Err(ConfigError::CpuCeilingTooLarge)
        } else {
            Ok(SuspendConfig { suspend_threshold_min, cpu_ceiling_centi })
        }
    }

    /// Checks the bounds above and builds the config; the result is `Ok`
    /// exactly when every bound holds.
    pub fn validate(
        suspend_threshold_min: u64,
        cpu_ceiling_centi: u64,
    ) -> (r: Result<SuspendConfig, ConfigError>)
        ensures
            r == Self::spec_validate(suspend_threshold_min, cpu_ceiling_centi),
            r matches Ok(c) ==> c.wf(),
            r is Ok <==> (suspend_threshold_min <= MAX_THRESHOLD_MIN
                && cpu_ceiling_centi <= CPU_USAGE_MAX),
    {
        if suspend_threshold_min > MAX_THRESHOLD_MIN {
            Err(ConfigError::SuspendThresholdTooLarge)
        } else if cpu_ceiling_centi > CPU_USAGE_MAX {
            Err(ConfigError::CpuCeilingTooLarge)
        } else {
            Ok(SuspendConfig { suspend_threshold_min, cpu_ceiling_centi })
        }
    }
}

/// Shape of the keep-alive tone.
#[derive(Clone, Copy, Debug, PartialEq, Eq, Structural)]
pub enum PulseMode {
    /// An endless tone.
    Continuous,
    /// A tone of a fixed duration.
    Fixed { duration_ms: u64 },
    /// A tone that is on for the start of each period and silent for the
    /// rest: `pulse_rate_hz` periods per second, each beginning with
    /// `pulse_duration_ms` of tone.
    DutyCycled { pulse_rate_hz: u32, pulse_duration_ms: u64 },
}

/// The keep-alive tone: a sine at `frequency_hz`, with peak sample value
/// `amplitude` (in millionths of full scale).
#[derive(Clone, Copy, Debug, PartialEq, Eq, Structural)]
pub struct PulseConfig {
    pub frequency_hz: u32,
    pub amplitude: u32,
    pub mode: PulseMode,
}

impl PulseConfig {
    /// Well-formed for a given output sample rate.
    pub open spec fn wf(self, sample_rate: u32) -> bool {
        &&& 1 <= self.frequency_hz
        &&& 1 <= sample_rate <= MAX_SAMPLE_RATE
        &&& match self.mode {
            PulseMode::Continuous => true,
            PulseMode::Fixed { duration_ms } => 1 <= duration_ms <= MAX_DURATION_MS,
            PulseMode::DutyCycled { pulse_rate_hz, pulse_duration_ms } => {
                &&& 1 <= pulse_rate_hz <= sample_rate
                &&& pulse_duration_ms <= MAX_PULSE_DURATION_MS
            },
        }
    }

    pub open spec fn spec_validate(
        frequency_hz: u32,
        amplitude: u32,
        mode: PulseMode,
        sample_rate: u32,
    ) -> Result<PulseConfig, ConfigError> {
        if frequency_hz == 0 {
            Err(ConfigError::ZeroFrequency)
        } else if sample_rate == 0 || sample_rate > MAX_SAMPLE_RATE {
            Err(ConfigError::SampleRateOutOfRange)
        } else {
            match mode {
                PulseMode::Continuous => Ok(PulseConfig { frequency_hz, amplitude, mode }),
                PulseMode::Fixed { duration_ms } => {
                    if duration_ms == 0 {
                        Err(ConfigError::ZeroDuration)
                    } else if duration_ms > MAX_DURATION_MS {
                        Err(ConfigError::DurationTooLarge)
                    } else {
                        Ok(PulseConfig { frequency_hz, amplitude, mode })
                    }
                },
                PulseMode::DutyCycled { pulse_rate_hz, pulse_duration_ms } => {
                    if pulse_rate_hz == 0 {
                        Err(ConfigError::ZeroPulseRate)
                    } else if pulse_rate_hz > sample_rate {
                        Err(ConfigError::PulseRateAboveSampleRate)
                    } else if pulse_duration_ms > MAX_PULSE_DURATION_MS {
                        Err(ConfigError::PulseDurationTooLarge)
                    } else {
                        Ok(PulseConfig { frequency_hz, amplitude, mode })
                    }
                },
            }
        }
    }

    /// Checks the bounds above and builds the config; the result is `Ok`
    /// exactly when the config is well-formed for `sample_rate`.
    pub fn validate(
        frequency_hz: u32,
        amplitude: u32,
        mode: PulseMode,
        sample_rate: u32,
    ) -> (r: Result<PulseConfig, ConfigError>)
        ensures
            r == Self::spec_validate(frequency_hz, amplitude, mode, sample_rate),
            r matches Ok(c) ==> c.wf(sample_rate)
                && c == (PulseConfig { frequency_hz, amplitude, mode }),
            r is Ok <==> (PulseConfig { frequency_hz, amplitude, mode }).wf(sample_rate),
    {
        if frequency_hz == 0 {
            Err(ConfigError::ZeroFrequency)
        } else if sample_rate == 0 || sample_rate > MAX_SAMPLE_RATE {
            Err(ConfigError::SampleRateOutOfRange)
        } else {
            match mode {
                PulseMode::Continuous => Ok(PulseConfig { frequency_hz, amplitude, mode }),
                PulseMode::Fixed { duration_ms } => {
                    if duration_ms == 0 {
                        Err(ConfigError::ZeroDuration)
                    } else if duration_ms > MAX_DURATION_MS {
                        Err(ConfigError::DurationTooLarge)
                    } else {
                        Ok(PulseConfig { frequency_hz, amplitude, mode })
                    }
                },
                PulseMode::DutyCycled { pulse_rate_hz, pulse_duration_ms } => {
                    if pulse_rate_hz == 0 {
                        Err(ConfigError::ZeroPulseRate)
                    } else if pulse_rate_hz > sample_rate {
                        Err(ConfigError::PulseRateAboveSampleRate)
                    } else if pulse_duration_ms > MAX_PULSE_DURATION_MS {
                        Err(ConfigError::PulseDurationTooLarge)
                    } else {
                        Ok(PulseConfig { frequency_hz, amplitude, mode })
                    }
                },
            }
        }
    }
}

} // verus!
