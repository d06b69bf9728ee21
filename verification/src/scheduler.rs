//! The silence scheduler: the state machine that decides when silence has
//! lasted long enough that a keep-alive pulse must be emitted.
//!
//! Each tick consumes one probe observation. Activity resets the silence
//! accumulator; silence grows it by the tick interval; a failed probe
//! read leaves it untouched. When the accumulator reaches the configured
//! threshold the scheduler asks for a pulse and waits in its emitting
//! state; the caller plays the tone, blocking, and reports back with
//! `pulse_completed`, which is the one point where the accumulator is
//! reset after an emission — only once the tone has actually finished.

use vstd::arithmetic::div_mod::lemma_fundamental_div_mod;
use vstd::arithmetic::div_mod::lemma_mod_bound;
use vstd::arithmetic::div_mod::lemma_mod_multiples_basic;
use vstd::arithmetic::div_mod::lemma_mod_multiples_vanish;
use vstd::arithmetic::div_mod::lemma_small_mod;
use vstd::arithmetic::mul::lemma_mul_inequality;
use vstd::prelude::*;
use crate::config::ScheduleConfig;

verus! {

/// Decides when to emit a keep-alive pulse.
pub struct SilenceScheduler {
    pub config: ScheduleConfig,
    /// Seconds of continuous silence since the last reset.
    pub silence_secs: u64,
    /// True from the decision to emit until the tone has finished.
    pub emitting: bool,
}

impl SilenceScheduler {
    pub open spec fn wf(self) -> bool {
        &&& self.config.wf()
        &&& if self.emitting {
            self.silence_secs < self.config.threshold_secs() + self.config.tick_secs
        } else {
            self.silence_secs < self.config.threshold_secs()
        }
    }

    /// The state after one probe observation: activity resets the
    /// accumulator, silence grows it by one tick interval, a failed read
    /// changes nothing.
    pub open spec fn spec_next(pre: Self, probe: Option<bool>) -> Self {
        match probe {
            Option::None => pre,
            Option::Some(true) => SilenceScheduler {
                config: pre.config,
                silence_secs: 0,
                emitting: pre.emitting,
            },
            Option::Some(false) => SilenceScheduler {
                config: pre.config,
                silence_secs: (pre.silence_secs + pre.config.tick_secs) as u64,
                emitting: pre.silence_secs + pre.config.tick_secs >= pre.config.threshold_secs(),
            },
        }
    }

    /// Whether this observation makes the pulse due: one more silent tick
    /// carries the accumulator to the threshold.
    pub open spec fn spec_emits(pre: Self, probe: Option<bool>) -> bool {
        probe == Option::Some(false) && pre.silence_secs + pre.config.tick_secs
            >= pre.config.threshold_secs()
    }

    pub fn new(config: ScheduleConfig) -> (r: Self)
        requires
            config.wf(),
        ensures
            r.wf(),
            r.config == config,
            r.silence_secs == 0,
            !r.emitting,
    {
        SilenceScheduler { config, silence_secs: 0, emitting: false }
    }

    /// One tick while accumulating. Returns whether a keep-alive pulse
    /// must now be emitted; if so, the caller plays the tone and then
    /// calls `pulse_completed`.
    pub fn tick(&mut self, probe: Option<bool>) -> (emit: bool)
        requires
            old(self).wf(),
            !old(self).emitting,
        ensures
            final(self).wf(),
            *final(self) == Self::spec_next(*old(self), probe),
            emit == Self::spec_emits(*old(self), probe),
            final(self).emitting == emit,
    {
        match probe {
            None => false,
            Some(true) => {
                self.silence_secs = 0;
                false
            },
            Some(false) => {
                let threshold: u64 = self.config.silence_threshold_min * 60;
                self.silence_secs = self.silence_secs + self.config.tick_secs;
                if self.silence_secs >= threshold {
                    self.emitting = true;
                    true
                } else {
                    false
                }
            },
        }
    }

    /// The emitted tone has finished playing: reset the accumulator and
    /// return to accumulating.
    pub fn pulse_completed(&mut self)
        requires
            old(self).wf(),
            old(self).emitting,
        ensures
            final(self).wf(),
            final(self).config == old(self).config,
            final(self).silence_secs == 0,
            !final(self).emitting,
    {
        self.silence_secs = 0;
        self.emitting = false;
    }

    /// One full tick as the loop drives it: the probe observation and,
    /// when a pulse became due, the blocking emission with the reset that
    /// follows it.
    pub open spec fn spec_run_step(pre: Self, probe: Option<bool>) -> Self {
        if Self::spec_emits(pre, probe) {
            SilenceScheduler { config: pre.config, silence_secs: 0, emitting: false }
        } else {
            Self::spec_next(pre, probe)
        }
    }

    /// The state after a whole sequence of full ticks, oldest observation
    /// first.
    pub open spec fn spec_run(s0: Self, probes: Seq<Option<bool>>) -> Self
        decreases probes.len(),
    {
        if probes.len() == 0 {
            s0
        } else {
            Self::spec_run_step(Self::spec_run(s0, probes.drop_last()), probes.last())
        }
    }

    /// Whether the pulse fires on tick `k` (0-based) of a run.
    pub open spec fn spec_emits_at(s0: Self, probes: Seq<Option<bool>>, k: int) -> bool {
        Self::spec_emits(Self::spec_run(s0, probes.take(k)), probes[k])
    }

    /// A full tick keeps the scheduler well-formed, out of the emitting
    /// state, and on the same configuration.
    pub proof fn lemma_run_step_invariant(pre: Self, probe: Option<bool>)
        requires
            pre.wf(),
            !pre.emitting,
        ensures
            Self::spec_run_step(pre, probe).wf(),
            !Self::spec_run_step(pre, probe).emitting,
            Self::spec_run_step(pre, probe).config == pre.config,
    {
    }

    /// A whole run keeps the scheduler well-formed, out of the emitting
    /// state, and on the same configuration.
    pub proof fn lemma_run_invariant(s0: Self, probes: Seq<Option<bool>>)
        requires
            s0.wf(),
            !s0.emitting,
        ensures
            Self::spec_run(s0, probes).wf(),
            !Self::spec_run(s0, probes).emitting,
            Self::spec_run(s0, probes).config == s0.config,
        decreases probes.len(),
    {
        if probes.len() > 0 {
            Self::lemma_run_invariant(s0, probes.drop_last());
            Self::lemma_run_step_invariant(Self::spec_run(s0, probes.drop_last()), probes.last());
        }
    }

    /// Law: while every probe observation reports activity, the silence
    /// accumulator stays at zero and no pulse ever fires.
    pub proof fn lemma_all_active_never_emits(s0: Self, probes: Seq<Option<bool>>)
        requires
            s0.silence_secs == 0,
            forall|k: int| 0 <= k < probes.len() ==> probes[k] == Option::Some(true),
        ensures
            forall|k: int|
                0 <= k <= probes.len() ==> #[trigger] Self::spec_run(
                    s0,
                    probes.take(k),
                ).silence_secs == 0,
            forall|k: int| 0 <= k < probes.len() ==> !Self::spec_emits_at(s0, probes, k),
        decreases probes.len(),
    {
        if probes.len() == 0 {
            assert(probes.take(0) =~= probes);
        } else {
            let shorter = probes.drop_last();
            Self::lemma_all_active_never_emits(s0, shorter);
            assert forall|k: int| 0 <= k <= probes.len() implies #[trigger] Self::spec_run(
                s0,
                probes.take(k),
            ).silence_secs == 0 by {
                if k < probes.len() {
                    assert(probes.take(k) =~= shorter.take(k));
                } else {
                    assert(probes.take(k) =~= probes);
                    assert(probes.drop_last() =~= shorter.take(probes.len() - 1));
                }
            }
        }
    }

    /// The number of silent ticks from a reset to the next pulse:
    /// the threshold divided by the tick interval, rounded up.
    pub open spec fn period_ticks(cfg: ScheduleConfig) -> int {
        (cfg.threshold_secs() + cfg.tick_secs - 1) / (cfg.tick_secs as int)
    }

    /// Bounds of the rounded-up quotient: the period is at least one tick,
    /// and the threshold falls in the last tick of the period.
    pub proof fn lemma_period_bounds(cfg: ScheduleConfig)
        requires
            cfg.wf(),
        ensures
            1 <= Self::period_ticks(cfg),
            (Self::period_ticks(cfg) - 1) * cfg.tick_secs < cfg.threshold_secs(),
            cfg.threshold_secs() <= Self::period_ticks(cfg) * cfg.tick_secs,
    {
        let t = cfg.tick_secs as int;
        let thr = cfg.threshold_secs();
        let p = Self::period_ticks(cfg);
        lemma_fundamental_div_mod(thr + t - 1, t);
        lemma_mod_bound(thr + t - 1, t);
        assert(thr + t - 1 == t * p + ((thr + t - 1) % t));
        assert(p * t == t * p) by (nonlinear_arith);
        assert((p - 1) * t == p * t - t) by (nonlinear_arith);
        assert(thr >= 1) by {
            assert(cfg.silence_threshold_min * 60 >= 1 * 60) by (nonlinear_arith)
                requires
                    cfg.silence_threshold_min >= 1,
            ;
        }
        assert(p >= 1) by (nonlinear_arith)
            requires
                t >= 1,
                thr >= 1,
                thr + t - 1 == t * p + ((thr + t - 1) % t),
                0 <= (thr + t - 1) % t < t,
        ;
    }

    /// The remainder after one more tick: it steps forward by one and
    /// wraps to zero at the period.
    proof fn lemma_mod_succ(k: int, p: int)
        requires
            0 <= k,
            1 <= p,
        ensures
            (k + 1) % p == if k % p == p - 1 {
                0int
            } else {
                k % p + 1
            },
    {
        let j = k % p;
        let q = k / p;
        lemma_fundamental_div_mod(k, p);
        lemma_mod_bound(k, p);
        if j == p - 1 {
            assert(k + 1 == (q + 1) * p) by (nonlinear_arith)
                requires
                    k == p * q + j,
                    j == p - 1,
            ;
            lemma_mod_multiples_basic(q + 1, p);
        } else {
            assert(k + 1 == p * q + (j + 1));
            lemma_mod_multiples_vanish(q, j + 1, p);
            lemma_small_mod((j + 1) as nat, p as nat);
        }
    }

    /// Law: while every probe observation reports silence, the pulse is
    /// strictly periodic: it fires exactly on every `period_ticks`-th
    /// tick, and between firings the accumulator counts the ticks since
    /// the last reset.
    pub proof fn lemma_constant_silence_is_periodic(cfg: ScheduleConfig, probes: Seq<Option<bool>>)
        requires
            cfg.wf(),
            forall|k: int| 0 <= k < probes.len() ==> probes[k] == Option::Some(false),
        ensures
            forall|k: int|
                0 <= k <= probes.len() ==> #[trigger] Self::spec_run(
                    SilenceScheduler { config: cfg, silence_secs: 0, emitting: false },
                    probes.take(k),
                ).silence_secs == (k % Self::period_ticks(cfg)) * cfg.tick_secs,
            forall|k: int|
                0 <= k < probes.len() ==> #[trigger] Self::spec_emits_at(
                    SilenceScheduler { config: cfg, silence_secs: 0, emitting: false },
                    probes,
                    k,
                ) == ((k + 1) % Self::period_ticks(cfg) == 0),
        decreases probes.len(),
    {
        let s0 = SilenceScheduler { config: cfg, silence_secs: 0, emitting: false };
        let p = Self::period_ticks(cfg);
        let t = cfg.tick_secs as int;
        let thr = cfg.threshold_secs();
        Self::lemma_period_bounds(cfg);
        if probes.len() == 0 {
            assert(probes.take(0) =~= probes);
            lemma_small_mod(0, p as nat);
            assert(Self::spec_run(s0, probes.take(0)).silence_secs == (0int % p) * t)
                by (nonlinear_arith)
                requires
                    Self::spec_run(s0, probes.take(0)).silence_secs == 0,
                    0int % p == 0,
            ;
        } else {
            let n = probes.len() - 1;
            let shorter = probes.drop_last();
            Self::lemma_constant_silence_is_periodic(cfg, shorter);
            assert forall|k: int| 0 <= k <= n implies #[trigger] Self::spec_run(
                s0,
                probes.take(k),
            ).silence_secs == (k % p) * t by {
                assert(probes.take(k) =~= shorter.take(k));
            }
            // The state before the last tick.
            let pre = Self::spec_run(s0, probes.take(n));
            Self::lemma_run_invariant(s0, probes.take(n));
            assert(pre.config == cfg);
            assert(probes[n] == Option::Some(false));
            let j = pre.silence_secs as int;
            assert(j == (n % p) * t);
            lemma_mod_bound(n, p);
            Self::lemma_mod_succ(n, p);
            let jm = n % p;
            // After one more silent tick the accumulator reads (jm+1)*t,
            // and the pulse fires exactly when that reaches the threshold,
            // which happens exactly at the end of the period.
            assert((jm + 1) * t == jm * t + t) by (nonlinear_arith);
            assert(probes.take(n) =~= probes.drop_last());
            assert(probes.take(probes.len() as int) =~= probes);
            let post = Self::spec_run(s0, probes);
            assert(post == Self::spec_run_step(pre, probes[n]));
            if jm == p - 1 {
                assert((jm + 1) * t == p * t) by (nonlinear_arith)
                    requires
                        jm == p - 1,
                ;
                assert(Self::spec_emits(pre, probes[n]));
                assert((n + 1) % p == 0);
                assert(post.silence_secs == 0);
                assert(((n + 1) % p) * t == 0);
            } else {
                assert((jm + 1) * t <= (p - 1) * t) by {
                    lemma_mul_inequality(jm + 1, p - 1, t);
                }
                assert(!Self::spec_emits(pre, probes[n]));
                assert((n + 1) % p == jm + 1);
                assert(thr <= 60_000_000);
                assert(j + t == (jm + 1) * t);
                assert(post.silence_secs == j + t);
                assert(post.silence_secs == ((n + 1) % p) * t);
            }
            assert forall|k: int| 0 <= k <= probes.len() implies #[trigger] Self::spec_run(
                s0,
                probes.take(k),
            ).silence_secs == (k % p) * t by {
                if k < probes.len() {
                    assert(probes.take(k) =~= shorter.take(k));
                }
            }
            assert forall|k: int| 0 <= k < probes.len() implies #[trigger] Self::spec_emits_at(
                s0,
                probes,
                k,
            ) == ((k + 1) % p == 0) by {
                if k < n {
                    assert(probes.take(k) =~= shorter.take(k));
                    assert(Self::spec_emits_at(s0, shorter, k) == ((k + 1) % p == 0));
                }
            }
        }
    }
}

} // verus!
