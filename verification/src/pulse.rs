//! The pulse synthesizer: a deterministic, lazy sequence of keep-alive
//! tone samples, a pure function of the sample index and the pulse
//! configuration — no wall-clock dependency.
//!
//! Samples are fixed-point integers in millionths of full scale
//! (`SAMPLE_SCALE`); the embedding program divides by the scale to obtain
//! floating-point samples for the output sink. The tone is a sine
//! approximated by a rational function of the phase: one half wave is
//! split into 512 phase units, and the level at unit `x` is
//! `amp * 16x(512-x) / (5*512*512 - 4x(512-x))`, which is exact at the
//! ends and the crest and stays within about 0.2% of the sine in between.
//! Audio fidelity beyond the amplitude bound is not a goal; the proved
//! guarantees are the sample count, the amplitude bound, and the exact
//! on/off shape of the duty cycle.

use vstd::arithmetic::div_mod::lemma_div_by_multiple;
use vstd::arithmetic::div_mod::lemma_div_is_ordered;
use vstd::arithmetic::div_mod::lemma_div_pos_is_pos;
use vstd::arithmetic::div_mod::lemma_fundamental_div_mod;
use vstd::arithmetic::div_mod::lemma_mod_bound;
use vstd::arithmetic::mul::lemma_mul_inequality;
use vstd::arithmetic::mul::lemma_mul_upper_bound;
use vstd::prelude::*;
use crate::config::MAX_DURATION_MS;
use crate::config::MAX_PULSE_DURATION_MS;
use crate::config::MAX_SAMPLE_RATE;
use crate::config::PulseConfig;
use crate::config::PulseMode;

verus! {

/// Phase units in one half wave; a full cycle is 1024 units.
pub const HALF_WAVE_UNITS: u64 = 512;

/// Most samples one call may render; keeps buffers and index arithmetic
/// within every platform's `usize`.
pub const MAX_RENDER_SAMPLES: u64 = 100_000_000;

/// Where sample `i` of a sine of `freq` Hz at `rate` samples per second
/// falls within the 1024-unit cycle.
pub open spec fn phase_units(freq: int, rate: int, i: int) -> int {
    ((i * freq * 1024) % (1024 * rate)) / rate
}

/// The level of the rational half-wave at phase unit `x` of [0, 512], for
/// peak level `amp`: exact at 0, 512 (zero) and 256 (the crest, `amp`).
pub open spec fn half_wave_level(amp: int, x: int) -> int {
    (amp * 16 * x * (512 - x)) / (5 * 512 * 512 - 4 * (x * (512 - x)))
}

/// Sample `i` of the continuous tone: the positive half wave over the
/// first 512 phase units of each cycle, the negated half wave over the
/// rest.
pub open spec fn wave_of(freq: int, rate: int, amp: int, i: int) -> int {
    let x = phase_units(freq, rate, i);
    if x < 512 {
        half_wave_level(amp, x)
    } else {
        -half_wave_level(amp, x - 512)
    }
}

/// The phase of any sample lies inside the 1024-unit cycle.
pub proof fn lemma_phase_bounds(freq: int, rate: int, i: int)
    requires
        1 <= rate,
    ensures
        0 <= phase_units(freq, rate, i) < 1024,
{
    let m = 1024 * rate;
    let tot = i * freq * 1024;
    lemma_mod_bound(tot, m);
    let c = tot % m;
    let x = c / rate;
    lemma_div_pos_is_pos(c, rate);
    if x >= 1024 {
        lemma_fundamental_div_mod(c, rate);
        lemma_mod_bound(c, rate);
        assert(1024 * rate <= x * rate) by {
            lemma_mul_inequality(1024, x, rate);
        }
        assert(x * rate == rate * x) by (nonlinear_arith);
        assert(false);
    }
}

/// The half-wave level is never negative and never exceeds the peak.
pub proof fn lemma_half_wave_bounds(amp: int, x: int)
    requires
        0 <= amp,
        0 <= x <= 512,
    ensures
        0 <= half_wave_level(amp, x) <= amp,
{
    let u = x * (512 - x);
    let num = amp * 16 * x * (512 - x);
    let den = 5 * 512 * 512 - 4 * (x * (512 - x));
    assert(0 <= u && 4 * u <= 512 * 512) by (nonlinear_arith)
        requires
            0 <= x <= 512,
            u == x * (512 - x),
    ;
    assert(den == 1_310_720 - 4 * u);
    assert(num == amp * (16 * u)) by (nonlinear_arith)
        requires
            u == x * (512 - x),
            num == amp * 16 * x * (512 - x),
    ;
    assert(0 <= num) by (nonlinear_arith)
        requires
            0 <= amp,
            0 <= u,
            num == amp * (16 * u),
    ;
    assert(num <= amp * den) by (nonlinear_arith)
        requires
            num == amp * (16 * u),
            den == 1_310_720 - 4 * u,
            4 * u <= 262_144,
            0 <= u,
            0 <= amp,
    ;
    assert(num / den <= (amp * den) / den) by {
        lemma_div_is_ordered(num, amp * den, den);
    }
    assert((amp * den) / den == amp) by {
        lemma_div_by_multiple(amp, den);
    }
    lemma_div_pos_is_pos(num, den);
}

/// Every sample of the continuous tone is bounded by the peak level.
pub proof fn lemma_wave_bounds(freq: int, rate: int, amp: int, i: int)
    requires
        1 <= rate,
        0 <= amp,
    ensures
        -amp <= wave_of(freq, rate, amp, i) <= amp,
{
    lemma_phase_bounds(freq, rate, i);
    let x = phase_units(freq, rate, i);
    if x < 512 {
        lemma_half_wave_bounds(amp, x);
    } else {
        lemma_half_wave_bounds(amp, x - 512);
    }
}

/// The level of the rational half-wave at phase unit `x`.
fn half_wave_mag(amplitude: u32, x: u64) -> (mag: u64)
    requires
        x <= 512,
    ensures
        mag == half_wave_level(amplitude as int, x as int),
        mag <= amplitude,
{
    proof {
        lemma_half_wave_bounds(amplitude as int, x as int);
        assert(0 <= (x as int) * (512 - x as int) <= 262_144) by (nonlinear_arith)
            requires
                0 <= x <= 512,
        ;
    }
    let u: u64 = x * (512 - x);
    proof {
        assert((amplitude as int * 16) * (u as int) <= 0xffff_ffff as int * 16 * 262_144) by {
            lemma_mul_upper_bound(
                amplitude as int * 16,
                0xffff_ffff as int * 16,
                u as int,
                262_144,
            );
        }
        assert((amplitude as int * 16) * (u as int) == amplitude as int * 16 * (x as int) * (512
            - x as int)) by (nonlinear_arith)
            requires
                u == x as int * (512 - x as int),
        ;
    }
    let num: u64 = (amplitude as u64) * 16 * u;
    let den: u64 = 1_310_720 - 4 * u;
    num / den
}

/// Sample `i` of the continuous tone for the given frequency, peak
/// amplitude (in millionths of full scale) and sample rate.
pub fn tone_sample(frequency_hz: u32, amplitude: u32, sample_rate: u32, i: u64) -> (s: i64)
    requires
        1 <= sample_rate,
    ensures
        s == wave_of(frequency_hz as int, sample_rate as int, amplitude as int, i as int),
        -(amplitude as int) <= s <= amplitude as int,
{
    proof {
        lemma_phase_bounds(frequency_hz as int, sample_rate as int, i as int);
        lemma_wave_bounds(
            frequency_hz as int,
            sample_rate as int,
            amplitude as int,
            i as int,
        );
        assert((i as int) * (frequency_hz as int) <= 0xffff_ffff_ffff_ffff as int
            * 0xffff_ffff) by {
            lemma_mul_upper_bound(
                i as int,
                0xffff_ffff_ffff_ffff as int,
                frequency_hz as int,
                0xffff_ffff as int,
            );
        }
    }
    let total: u128 = (i as u128) * (frequency_hz as u128) * 1024;
    let m: u128 = 1024 * (sample_rate as u128);
    let c: u128 = total % m;
    proof {
        assert(c as int == ((i as int) * (frequency_hz as int) * 1024) % (1024 * (
        sample_rate as int)));
        lemma_mod_bound(c as int, sample_rate as int);
    }
    let x: u64 = (c / (sample_rate as u128)) as u64;
    proof {
        assert(x as int == phase_units(
            frequency_hz as int,
            sample_rate as int,
            i as int,
        ));
    }
    if x < 512 {
        let mag = half_wave_mag(amplitude, x);
        mag as i64
    } else {
        let mag = half_wave_mag(amplitude, x - 512);
        -(mag as i64)
    }
}

/// How many samples a fixed tone lasts: the sample rate times the
/// duration, rounded to the nearest sample.
pub open spec fn spec_fixed_sample_count(rate: int, duration_ms: int) -> int {
    (rate * duration_ms + 500) / 1000
}

/// The length of one duty-cycle period in samples: the sample rate over
/// the pulse rate, rounded to the nearest sample.
pub open spec fn spec_duty_interval(rate: int, pulse_rate: int) -> int {
    (2 * rate + pulse_rate) / (2 * pulse_rate)
}

/// How many samples of each duty-cycle period carry the tone.
pub open spec fn spec_duty_pulse_len(rate: int, pulse_duration_ms: int) -> int {
    (rate * pulse_duration_ms + 500) / 1000
}

/// Sample `i` of the configured pulse: the plain tone in continuous and
/// fixed mode; in duty-cycled mode the tone, with its phase reset at each
/// period start, for the first `spec_duty_pulse_len` samples of each
/// period and exact zero for the rest.
pub open spec fn spec_sample_at(cfg: PulseConfig, rate: int, i: int) -> int {
    match cfg.mode {
        PulseMode::Continuous => wave_of(cfg.frequency_hz as int, rate, cfg.amplitude as int, i),
        PulseMode::Fixed { .. } => wave_of(cfg.frequency_hz as int, rate, cfg.amplitude as int, i),
        PulseMode::DutyCycled { pulse_rate_hz, pulse_duration_ms } => {
            let j = i % spec_duty_interval(rate, pulse_rate_hz as int);
            if j < spec_duty_pulse_len(rate, pulse_duration_ms as int) {
                wave_of(cfg.frequency_hz as int, rate, cfg.amplitude as int, j)
            } else {
                0
            }
        },
    }
}

/// The number of samples of a fixed tone.
pub fn fixed_sample_count(sample_rate: u32, duration_ms: u64) -> (n: u64)
    requires
        1 <= sample_rate <= MAX_SAMPLE_RATE,
        duration_ms <= MAX_DURATION_MS,
    ensures
        n == spec_fixed_sample_count(sample_rate as int, duration_ms as int),
{
    proof {
        assert((sample_rate as int) * (duration_ms as int) <= MAX_SAMPLE_RATE as int
            * MAX_DURATION_MS as int) by {
            lemma_mul_upper_bound(
                sample_rate as int,
                MAX_SAMPLE_RATE as int,
                duration_ms as int,
                MAX_DURATION_MS as int,
            );
        }
    }
    ((sample_rate as u64) * duration_ms + 500) / 1000
}

/// The length of one duty-cycle period in samples; at least one.
pub fn duty_interval(sample_rate: u32, pulse_rate_hz: u32) -> (n: u64)
    requires
        1 <= pulse_rate_hz <= sample_rate,
    ensures
        n == spec_duty_interval(sample_rate as int, pulse_rate_hz as int),
        n >= 1,
{
    let r = sample_rate as u64;
    let p = pulse_rate_hz as u64;
    proof {
        let num = 2 * (r as int) + p as int;
        let d = 2 * (p as int);
        assert(d <= num);
        assert(d / d <= num / d) by {
            lemma_div_is_ordered(d, num, d);
        }
        assert(d / d == 1) by {
            lemma_div_by_multiple(1, d);
        }
    }
    (2 * r + p) / (2 * p)
}

/// How many samples of each duty-cycle period carry the tone.
pub fn duty_pulse_len(sample_rate: u32, pulse_duration_ms: u64) -> (n: u64)
    requires
        1 <= sample_rate <= MAX_SAMPLE_RATE,
        pulse_duration_ms <= MAX_PULSE_DURATION_MS,
    ensures
        n == spec_duty_pulse_len(sample_rate as int, pulse_duration_ms as int),
{
    proof {
        assert((sample_rate as int) * (pulse_duration_ms as int) <= MAX_SAMPLE_RATE as int
            * MAX_PULSE_DURATION_MS as int) by {
            lemma_mul_upper_bound(
                sample_rate as int,
                MAX_SAMPLE_RATE as int,
                pulse_duration_ms as int,
                MAX_PULSE_DURATION_MS as int,
            );
        }
    }
    ((sample_rate as u64) * pulse_duration_ms + 500) / 1000
}

/// Sample `i` of the configured pulse, bounded by the configured
/// amplitude.
pub fn sample_at(cfg: &PulseConfig, sample_rate: u32, i: u64) -> (s: i64)
    requires
        cfg.wf(sample_rate),
    ensures
        s == spec_sample_at(*cfg, sample_rate as int, i as int),
        -(cfg.amplitude as int) <= s <= cfg.amplitude as int,
{
    match cfg.mode {
        PulseMode::Continuous => tone_sample(cfg.frequency_hz, cfg.amplitude, sample_rate, i),
        PulseMode::Fixed { .. } => tone_sample(cfg.frequency_hz, cfg.amplitude, sample_rate, i),
        PulseMode::DutyCycled { pulse_rate_hz, pulse_duration_ms } => {
            let interval = duty_interval(sample_rate, pulse_rate_hz);
            let j = i % interval;
            let plen = duty_pulse_len(sample_rate, pulse_duration_ms);
            if j < plen {
                tone_sample(cfg.frequency_hz, cfg.amplitude, sample_rate, j)
            } else {
                0
            }
        },
    }
}

/// Law: in duty-cycled mode, every period of `spec_duty_interval` samples
/// begins with exactly `spec_duty_pulse_len` tone samples — the sine with
/// its phase reset at the period start — and every other sample of the
/// period is exactly zero.
pub proof fn lemma_duty_cycle_shape(cfg: PulseConfig, rate: int, i: int, pr: int, pd: int)
    requires
        cfg.mode == (PulseMode::DutyCycled {
            pulse_rate_hz: pr as u32,
            pulse_duration_ms: pd as u64,
        }),
        0 <= pr <= u32::MAX,
        0 <= pd <= u64::MAX,
    ensures
        i % spec_duty_interval(rate, pr) >= spec_duty_pulse_len(rate, pd) ==> spec_sample_at(
            cfg,
            rate,
            i,
        ) == 0,
        i % spec_duty_interval(rate, pr) < spec_duty_pulse_len(rate, pd) ==> spec_sample_at(
            cfg,
            rate,
            i,
        ) == wave_of(
            cfg.frequency_hz as int,
            rate,
            cfg.amplitude as int,
            i % spec_duty_interval(rate, pr),
        ),
{
}

/// Renders a whole fixed-duration tone. The length of the result is the
/// sample rate times the duration, rounded to the nearest sample, and
/// every sample is the tone sample for its index, bounded by the
/// amplitude.
pub fn render_fixed(cfg: &PulseConfig, sample_rate: u32) -> (out: Vec<i64>)
    requires
        cfg.wf(sample_rate),
        (cfg.mode matches PulseMode::Fixed { duration_ms } && spec_fixed_sample_count(
            sample_rate as int,
            duration_ms as int,
        ) <= MAX_RENDER_SAMPLES),
    ensures
        (cfg.mode matches PulseMode::Fixed { duration_ms } ==> out@.len()
            == spec_fixed_sample_count(sample_rate as int, duration_ms as int)),
        forall|k: int|
            0 <= k < out@.len() ==> #[trigger] out@[k] == spec_sample_at(
                *cfg,
                sample_rate as int,
                k,
            ),
        forall|k: int|
            0 <= k < out@.len() ==> -(cfg.amplitude as int) <= #[trigger] out@[k]
                <= cfg.amplitude as int,
{
    let duration_ms: u64 = match cfg.mode {
        PulseMode::Fixed { duration_ms } => duration_ms,
        PulseMode::Continuous => 0,
        PulseMode::DutyCycled { .. } => 0,
    };
    let count = fixed_sample_count(sample_rate, duration_ms);
    let mut out: Vec<i64> = Vec::new();
    let mut i: u64 = 0;
    while i < count
        invariant
            cfg.wf(sample_rate),
            i <= count,
            count <= MAX_RENDER_SAMPLES,
            out@.len() == i,
            forall|k: int|
                0 <= k < i ==> #[trigger] out@[k] == spec_sample_at(
                    *cfg,
                    sample_rate as int,
                    k,
                ),
            forall|k: int|
                0 <= k < i ==> -(cfg.amplitude as int) <= #[trigger] out@[k]
                    <= cfg.amplitude as int,
        decreases count - i,
    {
        let s = sample_at(cfg, sample_rate, i);
        out.push(s);
        i = i + 1;
    }
    out
}

/// The lazy sample stream: its only state is the next sample index, which
/// resets on every fresh synthesizer, so the sequence is restartable and
/// independent of the wall clock.
pub struct PulseSynth {
    pub config: PulseConfig,
    pub sample_rate: u32,
    pub index: u64,
}

impl PulseSynth {
    pub open spec fn wf(self) -> bool {
        self.config.wf(self.sample_rate)
    }

    /// Whether the stream is exhausted: only a fixed tone ever ends.
    pub open spec fn spec_done(self) -> bool {
        match self.config.mode {
            PulseMode::Fixed { duration_ms } => self.index >= spec_fixed_sample_count(
                self.sample_rate as int,
                duration_ms as int,
            ),
            _ => false,
        }
    }

    pub fn new(config: PulseConfig, sample_rate: u32) -> (r: Self)
        requires
            config.wf(sample_rate),
        ensures
            r.wf(),
            r.config == config,
            r.sample_rate == sample_rate,
            r.index == 0,
    {
        PulseSynth { config, sample_rate, index: 0 }
    }

    /// The next sample of the stream, or nothing once a fixed tone has
    /// delivered its full count.
    pub fn next_sample(&mut self) -> (s: Option<i64>)
        requires
            old(self).wf(),
            old(self).index < u64::MAX,
        ensures
            final(self).wf(),
            final(self).config == old(self).config,
            final(self).sample_rate == old(self).sample_rate,
            old(self).spec_done() ==> s is None && final(self).index == old(self).index,
            !old(self).spec_done() ==> {
                &&& s matches Some(v) && v == spec_sample_at(
                    old(self).config,
                    old(self).sample_rate as int,
                    old(self).index as int,
                )
                &&& final(self).index == old(self).index + 1
            },
    {
        match self.config.mode {
            PulseMode::Fixed { duration_ms } => {
                let count = fixed_sample_count(self.sample_rate, duration_ms);
                if self.index >= count {
                    return None;
                }
            },
            PulseMode::Continuous => {},
            PulseMode::DutyCycled { .. } => {},
        }
        let s = sample_at(&self.config, self.sample_rate, self.index);
        self.index = self.index + 1;
        Some(s)
    }

    /// Restarts the stream from its first sample.
    pub fn reset(&mut self)
        requires
            old(self).wf(),
        ensures
            final(self).wf(),
            final(self).config == old(self).config,
            final(self).sample_rate == old(self).sample_rate,
            final(self).index == 0,
    {
        self.index = 0;
    }
}

} // verus!
