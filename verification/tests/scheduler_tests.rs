use rustle::config::{ScheduleConfig, SuspendConfig};
use rustle::scheduler::SilenceScheduler;
use rustle::suspend::SuspendGate;

fn schedule(min: u64, tick: u64) -> ScheduleConfig {
    ScheduleConfig::validate(min, tick, 1000).unwrap()
}

#[test]
fn silence_grows_by_the_tick_interval() {
    let mut s = SilenceScheduler::new(schedule(10, 7));
    assert!(!s.tick(Some(false)));
    assert!(!s.tick(Some(false)));
    assert_eq!(s.silence_secs, 14);
}

#[test]
fn activity_resets_the_accumulator() {
    let mut s = SilenceScheduler::new(schedule(10, 7));
    s.tick(Some(false));
    s.tick(Some(true));
    assert_eq!(s.silence_secs, 0);
}

#[test]
fn a_failed_read_changes_nothing() {
    let mut s = SilenceScheduler::new(schedule(10, 7));
    s.tick(Some(false));
    s.tick(None);
    assert_eq!(s.silence_secs, 7);
}

#[test]
fn emission_waits_for_completion_before_resetting() {
    // Threshold 1 min, tick 45 s: the second silent tick reaches 90 s and
    // asks for the pulse; the accumulator resets only on completion.
    let mut s = SilenceScheduler::new(schedule(1, 45));
    assert!(!s.tick(Some(false)));
    assert!(s.tick(Some(false)));
    assert!(s.emitting);
    assert_eq!(s.silence_secs, 90);
    s.pulse_completed();
    assert!(!s.emitting);
    assert_eq!(s.silence_secs, 0);
}

#[test]
fn gate_idle_stops_growing_at_the_threshold() {
    // The decision only asks whether the threshold was reached, so the
    // accumulator is capped there while the CPU ceiling blocks suspending.
    let cfg = SuspendConfig::validate(1, 100).unwrap();
    let mut g = SuspendGate::new(cfg, 60);
    for _ in 0..5 {
        let fired = g.tick(Some(false), Some(9_999));
        assert!(!fired);
    }
    assert_eq!(g.idle_secs, 60);
}

#[test]
fn gate_fires_only_once_per_quiet_stretch() {
    let cfg = SuspendConfig::validate(1, 0).unwrap();
    let mut g = SuspendGate::new(cfg, 30);
    let mut firings = 0;
    for _ in 0..8 {
        if g.tick(Some(false), Some(0)) {
            firings += 1;
        }
    }
    // Fires at 60 s, resets, and again 60 s later: ticks 2, 4, 6, 8.
    assert_eq!(firings, 4);
}

#[test]
fn gate_activity_resets_idle() {
    let cfg = SuspendConfig::validate(2, 0).unwrap();
    let mut g = SuspendGate::new(cfg, 30);
    g.tick(Some(false), Some(0));
    g.tick(Some(false), Some(0));
    assert_eq!(g.idle_secs, 60);
    g.tick(Some(true), Some(0));
    assert_eq!(g.idle_secs, 0);
}

#[test]
fn gate_failed_probe_preserves_idle_and_fires_nothing() {
    let cfg = SuspendConfig::validate(1, 100).unwrap();
    let mut g = SuspendGate::new(cfg, 60);
    // The idle accumulator reaches the threshold, but the CPU ceiling
    // blocks suspending.
    assert!(!g.tick(Some(false), Some(9_999)));
    assert_eq!(g.idle_secs, 60);
    // A failed probe read never fires, however ripe the accumulator.
    assert!(!g.tick(None, Some(0)));
    assert_eq!(g.idle_secs, 60);
    // The next good tick does.
    assert!(g.tick(Some(false), Some(0)));
    assert_eq!(g.idle_secs, 0);
}

#[test]
fn gate_window_capacity_is_the_threshold_in_minutes() {
    let cfg = SuspendConfig::validate(3, 100).unwrap();
    let g = SuspendGate::new(cfg, 1);
    assert_eq!(g.filter.capacity, 3);
}
