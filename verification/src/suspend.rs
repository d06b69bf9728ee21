//! The suspend gate: the state machine, independent of the silence
//! scheduler, that decides when the host may be told to suspend.
//!
//! It owns its own idle accumulator and the CPU usage window. A suspend
//! becomes due when the accumulated system silence reaches the configured
//! threshold and the smoothed CPU usage is at or below the configured
//! ceiling (or no ceiling is set). Whatever the suspend attempt then
//! returns, the accumulator is reset, so repeated failures cannot turn
//! into a retry storm. A gate whose threshold is zero is disabled and
//! never fires.
//!
//! A failed probe read leaves the idle accumulator untouched and
//! suppresses the decision for that tick; a failed CPU reading leaves the
//! window untouched and likewise suppresses the decision. The idle
//! accumulator stops growing once it has reached the threshold: the
//! decision only asks whether the threshold was reached, and the cap keeps
//! the count well clear of any overflow however long the silence lasts.

use vstd::prelude::*;
use crate::config::CPU_USAGE_MAX;
use crate::config::MAX_TICK_SECS;
use crate::config::SuspendConfig;
use crate::filter::MovingAverageFilter;
use crate::filter::window_average;
use crate::filter::window_push;

verus! {

/// Decides when to invoke the suspend collaborator.
pub struct SuspendGate {
    pub config: SuspendConfig,
    /// Seconds between two probe readings.
    pub tick_secs: u64,
    /// Seconds of continuous system silence since the last reset, capped
    /// at the threshold.
    pub idle_secs: u64,
    /// The smoothed CPU usage signal.
    pub filter: MovingAverageFilter,
}

impl SuspendGate {
    pub open spec fn wf(self) -> bool {
        &&& self.config.wf()
        &&& 1 <= self.tick_secs <= MAX_TICK_SECS
        &&& self.filter.wf()
        &&& self.filter.capacity == self.config.suspend_threshold_min
        &&& self.idle_secs < self.config.threshold_secs() + self.tick_secs
    }

    /// The idle accumulator after one probe observation: activity resets
    /// it, silence grows it by one tick interval until it has reached the
    /// threshold, a failed read changes nothing.
    pub open spec fn spec_idle_next(pre: Self, probe: Option<bool>) -> u64 {
        match probe {
            Option::None => pre.idle_secs,
            Option::Some(true) => 0u64,
            Option::Some(false) => {
                if pre.idle_secs < pre.config.threshold_secs() {
                    (pre.idle_secs + pre.tick_secs) as u64
                } else {
                    pre.idle_secs
                }
            },
        }
    }

    /// The CPU window after one telemetry reading: a fresh sample enters
    /// the window, a failed reading changes nothing.
    pub open spec fn spec_window_next(pre: Self, cpu: Option<u64>) -> Seq<u64> {
        match cpu {
            Option::None => pre.filter.window@,
            Option::Some(v) => window_push(pre.filter.window@, pre.filter.capacity as int, v),
        }
    }

    /// Whether this tick's observations make a suspend due: the machine
    /// is enabled, both readings arrived, the idle accumulator has reached
    /// the threshold, and the smoothed CPU usage is under the ceiling (or
    /// no ceiling is set).
    pub open spec fn spec_fires(pre: Self, probe: Option<bool>, cpu: Option<u64>) -> bool {
        &&& pre.config.enabled()
        &&& probe is Some
        &&& cpu is Some
        &&& Self::spec_idle_next(pre, probe) >= pre.config.threshold_secs()
        &&& (pre.config.cpu_ceiling_centi == 0 || window_average(
            Self::spec_window_next(pre, cpu),
            pre.filter.capacity as int,
        ) <= pre.config.cpu_ceiling_centi)
    }

    /// One tick as a relation between the states before and after it;
    /// `tick` establishes it, and the run-level laws quantify over chains
    /// of states linked by it.
    pub open spec fn tick_relation(
        pre: Self,
        probe: Option<bool>,
        cpu: Option<u64>,
        post: Self,
        fired: bool,
    ) -> bool {
        &&& pre.wf()
        &&& post.wf()
        &&& post.config == pre.config
        &&& post.tick_secs == pre.tick_secs
        &&& post.filter.capacity == pre.filter.capacity
        &&& post.filter.window@ == Self::spec_window_next(pre, cpu)
        &&& fired == Self::spec_fires(pre, probe, cpu)
        &&& post.idle_secs == if fired {
            0u64
        } else {
            Self::spec_idle_next(pre, probe)
        }
    }

    /// A fresh gate; the CPU window capacity is the suspend threshold in
    /// minutes, one slot per tick of the warm-up period.
    pub fn new(config: SuspendConfig, tick_secs: u64) -> (r: Self)
        requires
            config.wf(),
            1 <= tick_secs <= MAX_TICK_SECS,
        ensures
            r.wf(),
            r.config == config,
            r.tick_secs == tick_secs,
            r.idle_secs == 0,
            r.filter.window@ =~= Seq::<u64>::empty(),
            r.filter.capacity == config.suspend_threshold_min,
    {
        let capacity = config.suspend_threshold_min as usize;
        SuspendGate { config, tick_secs, idle_secs: 0, filter: MovingAverageFilter::new(capacity) }
    }

    /// One tick. Returns whether the suspend collaborator must now be
    /// invoked; the accumulator is already reset when it says so, whatever
    /// the invocation later returns.
    pub fn tick(&mut self, audible: Option<bool>, cpu_sample: Option<u64>) -> (fire: bool)
        requires
            old(self).wf(),
            cpu_sample matches Some(v) ==> v <= CPU_USAGE_MAX,
        ensures
            final(self).wf(),
            final(self).config == old(self).config,
            final(self).tick_secs == old(self).tick_secs,
            final(self).filter.capacity == old(self).filter.capacity,
            final(self).filter.window@ =~= Self::spec_window_next(*old(self), cpu_sample),
            fire == Self::spec_fires(*old(self), audible, cpu_sample),
            final(self).idle_secs == if fire {
                0u64
            } else {
                Self::spec_idle_next(*old(self), audible)
            },
            Self::tick_relation(*old(self), audible, cpu_sample, *final(self), fire),
    {
        let mut have_cpu = false;
        match cpu_sample {
            Some(v) => {
                self.filter.push(v);
                have_cpu = true;
            },
            None => {},
        }
        let threshold: u64 = self.config.suspend_threshold_min * 60;
        let mut have_probe = false;
        match audible {
            None => {},
            Some(true) => {
                self.idle_secs = 0;
                have_probe = true;
            },
            Some(false) => {
                if self.idle_secs < threshold {
                    self.idle_secs = self.idle_secs + self.tick_secs;
                }
                have_probe = true;
            },
        }
        let mut fire = false;
        if have_probe && have_cpu && self.config.suspend_threshold_min != 0 && self.idle_secs
            >= threshold {
            if self.config.cpu_ceiling_centi == 0 {
                fire = true;
            } else {
                let avg = self.filter.average();
                if avg <= self.config.cpu_ceiling_centi {
                    fire = true;
                }
            }
        }
        if fire {
            self.idle_secs = 0;
        }
        fire
    }

    /// Law: a gate configured with a zero suspend threshold is disabled:
    /// whatever state any sequence of probe and CPU observations has put
    /// it in, no tick ever fires.
    pub proof fn lemma_disabled_never_fires(pre: Self, probe: Option<bool>, cpu: Option<u64>)
        requires
            !pre.config.enabled(),
        ensures
            !Self::spec_fires(pre, probe, cpu),
    {
    }

    /// Law: while every probe observation of a run reports activity, the
    /// idle accumulator reads zero in every state of the run and no tick
    /// ever requests a suspend, whatever the CPU readings do. The run is
    /// any chain of states linked tick by tick.
    pub proof fn lemma_all_active_run_never_suspends(
        states: Seq<SuspendGate>,
        probes: Seq<Option<bool>>,
        cpus: Seq<Option<u64>>,
        fires: Seq<bool>,
    )
        requires
            states.len() == probes.len() + 1,
            cpus.len() == probes.len(),
            fires.len() == probes.len(),
            states[0].idle_secs == 0,
            forall|k: int| 0 <= k < probes.len() ==> probes[k] == Option::Some(true),
            forall|k: int|
                0 <= k < probes.len() ==> #[trigger] Self::tick_relation(
                    states[k],
                    probes[k],
                    cpus[k],
                    states[k + 1],
                    fires[k],
                ),
        ensures
            forall|k: int| 0 <= k < states.len() ==> (#[trigger] states[k]).idle_secs == 0,
            forall|k: int| 0 <= k < fires.len() ==> !(#[trigger] fires[k]),
    {
        assert forall|k: int| 0 <= k < states.len() implies (#[trigger] states[k]).idle_secs
            == 0 by {
            if k > 0 {
                let j = k - 1;
                assert(Self::tick_relation(
                    states[j],
                    probes[j],
                    cpus[j],
                    states[j + 1],
                    fires[j],
                ));
                assert(probes[j] == Option::Some(true));
                assert(states[j + 1] == states[k]);
            }
        }
        assert forall|k: int| 0 <= k < fires.len() implies !(#[trigger] fires[k]) by {
            assert(Self::tick_relation(states[k], probes[k], cpus[k], states[k + 1], fires[k]));
            assert(probes[k] == Option::Some(true));
            if states[k].config.enabled() {
                assert(states[k].config.threshold_secs() >= 60);
            }
        }
    }

    /// Law: a suspend becomes due exactly when the accumulated silence has
    /// reached the threshold and the smoothed CPU usage permits it; in
    /// particular it never fires while the smoothed usage is above a
    /// non-zero ceiling.
    pub proof fn lemma_fire_conditions(pre: Self, probe: Option<bool>, cpu: Option<u64>)
        ensures
            Self::spec_fires(pre, probe, cpu) ==> Self::spec_idle_next(pre, probe)
                >= pre.config.threshold_secs(),
            pre.config.cpu_ceiling_centi != 0 && window_average(
                Self::spec_window_next(pre, cpu),
                pre.filter.capacity as int,
            ) > pre.config.cpu_ceiling_centi ==> !Self::spec_fires(pre, probe, cpu),
            (pre.config.enabled() && probe is Some && cpu is Some && Self::spec_idle_next(pre, probe)
                >= pre.config.threshold_secs() && (pre.config.cpu_ceiling_centi == 0
                || window_average(Self::spec_window_next(pre, cpu), pre.filter.capacity as int)
                <= pre.config.cpu_ceiling_centi)) ==> Self::spec_fires(pre, probe, cpu),
    {
    }
}

} // verus!
