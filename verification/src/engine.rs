//! The engine: the decisions of one tick of the loop.
//!
//! The loop around the library sleeps for the tick interval, reads the
//! activity probe and the CPU telemetry, and hands both observations to
//! `Engine::tick`, which drives the silence scheduler and the suspend
//! gate and answers with what must happen now: emit a keep-alive pulse,
//! request a suspend, neither, or both. The loop performs the actions —
//! playing the tone (then reporting back with `pulse_completed`) and
//! invoking the suspend command — and owns nothing else: every decision
//! is made here.
//!
//! A failed probe read (`None`) leaves both accumulators exactly as they
//! were: a transient failure is neither silence nor activity. A failed
//! CPU reading leaves the usage window untouched and suppresses the
//! suspend decision for that tick.

use vstd::prelude::*;
use crate::config::CPU_USAGE_MAX;
use crate::config::ScheduleConfig;
use crate::config::SuspendConfig;
use crate::probe::ProbeResult;
use crate::scheduler::SilenceScheduler;
use crate::suspend::SuspendGate;

verus! {

/// What the loop must do after a tick.
#[derive(Clone, Copy, Debug, PartialEq, Eq, Structural)]
pub struct TickDecision {
    /// Play the keep-alive tone, then call `pulse_completed`.
    pub emit_pulse: bool,
    /// Invoke the suspend collaborator; the idle accumulator has already
    /// reset, whatever the invocation returns.
    pub request_suspend: bool,
}

/// The two independent state machines, driven by the same probe stream.
pub struct Engine {
    pub scheduler: SilenceScheduler,
    pub gate: SuspendGate,
}

impl Engine {
    pub open spec fn wf(self) -> bool {
        &&& self.scheduler.wf()
        &&& self.gate.wf()
        &&& self.gate.tick_secs == self.scheduler.config.tick_secs
    }

    /// What a probe reading says about audibility; nothing on a failed
    /// read.
    pub open spec fn spec_audible(probe: Option<ProbeResult>) -> Option<bool> {
        match probe {
            Option::None => Option::None,
            Option::Some(p) => Option::Some(p.audible),
        }
    }

    /// A fresh engine: both accumulators at zero, the CPU window empty.
    pub fn new(schedule: ScheduleConfig, suspend: SuspendConfig) -> (r: Self)
        requires
            schedule.wf(),
            suspend.wf(),
        ensures
            r.wf(),
            r.scheduler.config == schedule,
            r.scheduler.silence_secs == 0,
            !r.scheduler.emitting,
            r.gate.config == suspend,
            r.gate.tick_secs == schedule.tick_secs,
            r.gate.idle_secs == 0,
            r.gate.filter.window@ =~= Seq::<u64>::empty(),
    {
        Engine {
            scheduler: SilenceScheduler::new(schedule),
            gate: SuspendGate::new(suspend, schedule.tick_secs),
        }
    }

    /// One tick: feed both machines one probe observation and one CPU
    /// reading, and answer with the actions now due.
    pub fn tick(&mut self, probe: Option<ProbeResult>, cpu_sample: Option<u64>) -> (d:
        TickDecision)
        requires
            old(self).wf(),
            !old(self).scheduler.emitting,
            cpu_sample matches Some(v) ==> v <= CPU_USAGE_MAX,
        ensures
            final(self).wf(),
            final(self).scheduler == SilenceScheduler::spec_next(
                old(self).scheduler,
                Self::spec_audible(probe),
            ),
            d.emit_pulse == SilenceScheduler::spec_emits(
                old(self).scheduler,
                Self::spec_audible(probe),
            ),
            final(self).scheduler.emitting == d.emit_pulse,
            d.request_suspend == SuspendGate::spec_fires(
                old(self).gate,
                Self::spec_audible(probe),
                cpu_sample,
            ),
            final(self).gate.config == old(self).gate.config,
            final(self).gate.tick_secs == old(self).gate.tick_secs,
            final(self).gate.filter.capacity == old(self).gate.filter.capacity,
            final(self).gate.filter.window@ =~= SuspendGate::spec_window_next(
                old(self).gate,
                cpu_sample,
            ),
            final(self).gate.idle_secs == if d.request_suspend {
                0u64
            } else {
                SuspendGate::spec_idle_next(old(self).gate, Self::spec_audible(probe))
            },
    {
        let audible: Option<bool> = match probe {
            Some(p) => Some(p.audible),
            None => None,
        };
        let emit = self.scheduler.tick(audible);
        let fire = self.gate.tick(audible, cpu_sample);
        TickDecision { emit_pulse: emit, request_suspend: fire }
    }

    /// The keep-alive tone has finished playing: the silence accumulator
    /// resets now, not when the tone started.
    pub fn pulse_completed(&mut self)
        requires
            old(self).wf(),
            old(self).scheduler.emitting,
        ensures
            final(self).wf(),
            final(self).scheduler.config == old(self).scheduler.config,
            final(self).scheduler.silence_secs == 0,
            !final(self).scheduler.emitting,
            final(self).gate == old(self).gate,
    {
        self.scheduler.pulse_completed();
    }

    /// Law: a tick whose probe reports activity is quiet, in whatever
    /// state any sequence of observations has put the engine: both
    /// accumulators read zero afterwards, no pulse is emitted and no
    /// suspend is requested.
    pub proof fn lemma_active_tick_is_quiet(
        pre: Self,
        probe: Option<ProbeResult>,
        cpu: Option<u64>,
    )
        requires
            pre.wf(),
            probe matches Some(p) && p.audible,
        ensures
            !SilenceScheduler::spec_emits(pre.scheduler, Self::spec_audible(probe)),
            SilenceScheduler::spec_next(pre.scheduler, Self::spec_audible(probe)).silence_secs
                == 0,
            !SuspendGate::spec_fires(pre.gate, Self::spec_audible(probe), cpu),
            SuspendGate::spec_idle_next(pre.gate, Self::spec_audible(probe)) == 0,
    {
        if pre.gate.config.enabled() {
            assert(pre.gate.config.threshold_secs() >= 60);
        }
    }
}

} // verus!
