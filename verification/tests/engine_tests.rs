use rustle::config::{ScheduleConfig, SuspendConfig};
use rustle::engine::Engine;
use rustle::probe::{ProbeKind, ProbeResult};

fn inactive() -> Option<ProbeResult> {
    Some(ProbeResult { audible: false, kind: ProbeKind::MonitorRms })
}

fn active() -> Option<ProbeResult> {
    Some(ProbeResult { audible: true, kind: ProbeKind::MonitorRms })
}

fn engine(silence_min: u64, tick_secs: u64, suspend_min: u64, ceiling: u64) -> Engine {
    let schedule = ScheduleConfig::validate(silence_min, tick_secs, 1000).unwrap();
    let suspend = SuspendConfig::validate(suspend_min, ceiling).unwrap();
    Engine::new(schedule, suspend)
}

#[test]
fn pulse_fires_every_ten_minutes_of_silence() {
    // Threshold 10 min, tick 1 s, probe constantly silent: the pulse
    // fires at t = 600 s, 1200 s, 1800 s, and the accumulator reads zero
    // immediately after each firing.
    let mut e = engine(10, 1, 0, 0);
    let mut emissions: Vec<u64> = Vec::new();
    for t in 1..=1800u64 {
        let d = e.tick(inactive(), Some(0));
        assert!(!d.request_suspend);
        if d.emit_pulse {
            e.pulse_completed();
            assert_eq!(e.scheduler.silence_secs, 0);
            emissions.push(t);
        }
    }
    assert_eq!(emissions, vec![600, 1200, 1800]);
}

#[test]
fn failed_probe_ticks_do_not_count_as_silence() {
    // The probe fails on ticks 5..=10 inclusive and reports silence on
    // every other tick: after 20 ticks of 1 s the accumulator reads
    // 20 - 6 = 14 seconds.
    let mut e = engine(10, 1, 0, 0);
    for t in 1..=20u64 {
        let probe = if (5..=10).contains(&t) { None } else { inactive() };
        let d = e.tick(probe, Some(0));
        assert!(!d.emit_pulse);
        assert!(!d.request_suspend);
    }
    assert_eq!(e.scheduler.silence_secs, 14);
}

#[test]
fn constant_activity_keeps_both_accumulators_at_zero() {
    let mut e = engine(1, 1, 1, 0);
    for _ in 0..200 {
        let d = e.tick(active(), Some(500));
        assert!(!d.emit_pulse);
        assert!(!d.request_suspend);
        assert_eq!(e.scheduler.silence_secs, 0);
        assert_eq!(e.gate.idle_secs, 0);
    }
}

#[test]
fn failed_probe_preserves_both_accumulators() {
    let mut e = engine(10, 1, 10, 0);
    for _ in 0..30 {
        e.tick(inactive(), Some(0));
    }
    assert_eq!(e.scheduler.silence_secs, 30);
    assert_eq!(e.gate.idle_secs, 30);
    for _ in 0..5 {
        let d = e.tick(None, Some(0));
        assert!(!d.emit_pulse);
        assert!(!d.request_suspend);
    }
    assert_eq!(e.scheduler.silence_secs, 30);
    assert_eq!(e.gate.idle_secs, 30);
}

#[test]
fn disabled_suspend_gate_never_fires() {
    // Suspend threshold 0 disables suspending for any probe/CPU sequence.
    let mut e = engine(1, 30, 0, 0);
    let sequence = [
        (inactive(), Some(10_000)),
        (inactive(), Some(0)),
        (active(), None),
        (None, Some(3000)),
        (inactive(), Some(0)),
        (inactive(), Some(0)),
        (inactive(), Some(0)),
    ];
    for (probe, cpu) in sequence {
        let d = e.tick(probe, cpu);
        assert!(!d.request_suspend);
        if d.emit_pulse {
            e.pulse_completed();
        }
    }
}

#[test]
fn suspend_fires_at_threshold_when_cpu_is_idle_enough() {
    // Threshold 1 min, tick 30 s, ceiling 50.00%: the suspend request
    // comes on the tick where the idle accumulator reaches 60 s, provided
    // the smoothed CPU usage is at or under the ceiling.
    let mut e = engine(100, 30, 1, 5000);
    let d = e.tick(inactive(), Some(1000));
    assert!(!d.request_suspend);
    assert_eq!(e.gate.idle_secs, 30);
    let d = e.tick(inactive(), Some(1000));
    assert!(d.request_suspend);
    // The reset happens at the firing itself, whatever the suspend
    // attempt later returns.
    assert_eq!(e.gate.idle_secs, 0);
}

#[test]
fn suspend_blocked_while_cpu_above_ceiling() {
    // Same timing, but the smoothed usage sits above the ceiling until
    // the last tick (window capacity is 1, the threshold in minutes).
    let mut e = engine(100, 30, 1, 5000);
    let d = e.tick(inactive(), Some(9000));
    assert!(!d.request_suspend);
    let d = e.tick(inactive(), Some(9000));
    assert!(!d.request_suspend);
    assert_eq!(e.gate.idle_secs, 60);
    // Idle stays at the threshold; a quieter CPU sample lets it fire.
    let d = e.tick(inactive(), Some(4000));
    assert!(d.request_suspend);
    assert_eq!(e.gate.idle_secs, 0);
}

#[test]
fn suspend_with_zero_ceiling_ignores_cpu_load() {
    // Ceiling 0 means no ceiling: full load does not block the suspend.
    let mut e = engine(100, 60, 1, 0);
    let d = e.tick(inactive(), Some(10_000));
    assert!(d.request_suspend);
}

#[test]
fn suspend_needs_a_cpu_reading() {
    // A failed CPU reading suppresses the suspend decision for the tick
    // and leaves the window untouched; the idle accumulator still grows.
    let mut e = engine(100, 60, 1, 0);
    let d = e.tick(inactive(), None);
    assert!(!d.request_suspend);
    assert_eq!(e.gate.idle_secs, 60);
    assert_eq!(e.gate.filter.window.len(), 0);
    let d = e.tick(inactive(), Some(0));
    assert!(d.request_suspend);
}

#[test]
fn activity_resets_a_grown_accumulator() {
    let mut e = engine(10, 1, 0, 0);
    for _ in 0..100 {
        e.tick(inactive(), Some(0));
    }
    assert_eq!(e.scheduler.silence_secs, 100);
    e.tick(active(), Some(0));
    assert_eq!(e.scheduler.silence_secs, 0);
}
