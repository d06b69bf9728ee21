//! Moving-average smoothing of the per-tick CPU usage signal.
//!
//! The window keeps the most recent samples, newest at the front. The
//! average always divides by the configured capacity, not by the number of
//! samples actually collected, so during warm-up (fewer samples than the
//! capacity) the output understates the true mean; that bias is deliberate
//! and documented behaviour.

use vstd::arithmetic::div_mod::lemma_fundamental_div_mod;
use vstd::arithmetic::mul::lemma_mul_inequality;
use vstd::arithmetic::mul::lemma_mul_strict_inequality;
use vstd::prelude::*;
use crate::config::CPU_USAGE_MAX;
use crate::config::MAX_THRESHOLD_MIN;

verus! {

/// The largest of a sequence of per-core usage readings; zero when there
/// are none.
pub open spec fn seq_max(s: Seq<u64>) -> int
    decreases s.len(),
{
    if s.len() == 0 {
        0
    } else if s.last() >= seq_max(s.drop_last()) {
        s.last() as int
    } else {
        seq_max(s.drop_last())
    }
}

/// Reduces one telemetry reading — the usage of every core — to the
/// busiest core's usage, the scalar the suspend gate smooths.
pub fn max_core_usage(cores: &Vec<u64>) -> (r: u64)
    ensures
        r == seq_max(cores@),
        forall|i: int| 0 <= i < cores@.len() ==> cores@[i] <= r,
{
    let mut r: u64 = 0;
    let mut i: usize = 0;
    while i < cores.len()
        invariant
            i <= cores@.len(),
            r == seq_max(cores@.take(i as int)),
            forall|j: int| 0 <= j < i ==> cores@[j] <= r,
        decreases cores@.len() - i,
    {
        proof {
            assert(cores@.take(i + 1).drop_last() =~= cores@.take(i as int));
            assert(cores@.take(i + 1).last() == cores@[i as int]);
        }
        if cores[i] > r {
            r = cores[i];
        }
        i = i + 1;
    }
    proof {
        assert(cores@.take(cores@.len() as int) =~= cores@);
    }
    r
}

/// Sum of the samples in a window.
pub open spec fn sum_of(s: Seq<u64>) -> int
    decreases s.len(),
{
    if s.len() == 0 {
        0
    } else {
        sum_of(s.drop_last()) + s.last()
    }
}

/// What one insertion does to a window of the given capacity: the new
/// sample enters at the front, and the oldest sample leaves once the
/// capacity is reached (a capacity of zero behaves as a capacity of one).
pub open spec fn window_push(s: Seq<u64>, capacity: int, v: u64) -> Seq<u64> {
    if s.len() >= capacity && s.len() > 0 {
        seq![v] + s.drop_last()
    } else {
        seq![v] + s
    }
}

/// The smoothed output for a window of the given capacity: the window sum
/// divided by the configured capacity (zero when the capacity is zero).
pub open spec fn window_average(s: Seq<u64>, capacity: int) -> int {
    if capacity == 0 {
        0
    } else {
        sum_of(s) / capacity
    }
}

/// A window after feeding it the samples of `inputs` in order, oldest
/// first.
pub open spec fn window_feed(s: Seq<u64>, capacity: int, inputs: Seq<u64>) -> Seq<u64>
    decreases inputs.len(),
{
    if inputs.len() == 0 {
        s
    } else {
        window_push(window_feed(s, capacity, inputs.drop_last()), capacity, inputs.last())
    }
}

/// Fixed-capacity window of recent CPU usage samples, in hundredths of a
/// percent, newest first.
pub struct MovingAverageFilter {
    pub window: Vec<u64>,
    pub capacity: usize,
}

impl MovingAverageFilter {
    /// How many samples the window can actually hold: a capacity of zero
    /// still leaves room for the one sample inserted after the eviction
    /// check.
    pub open spec fn slots(self) -> int {
        if self.capacity == 0 {
            1
        } else {
            self.capacity as int
        }
    }

    pub open spec fn wf(self) -> bool {
        &&& self.capacity <= MAX_THRESHOLD_MIN
        &&& self.window@.len() <= self.slots()
        &&& forall|i: int| 0 <= i < self.window@.len() ==> self.window@[i] <= CPU_USAGE_MAX
    }

    /// The smoothed output: the window sum divided by the configured
    /// capacity (zero when the capacity is zero).
    pub open spec fn spec_average(self) -> int {
        window_average(self.window@, self.capacity as int)
    }

    /// An empty window of the given capacity.
    pub fn new(capacity: usize) -> (r: Self)
        requires
            capacity <= MAX_THRESHOLD_MIN,
        ensures
            r.wf(),
            r.capacity == capacity,
            r.window@ =~= Seq::<u64>::empty(),
    {
        MovingAverageFilter { window: Vec::new(), capacity }
    }

    /// Inserts one sample at the front, evicting the oldest sample if the
    /// window is full.
    pub fn push(&mut self, v: u64)
        requires
            old(self).wf(),
            v <= CPU_USAGE_MAX,
        ensures
            final(self).wf(),
            final(self).capacity == old(self).capacity,
            final(self).window@ =~= window_push(old(self).window@, old(self).capacity as int, v),
    {
        if self.window.len() >= self.capacity {
            let _ = self.window.pop();
        }
        self.window.insert(0, v);
    }

    /// The current smoothed CPU usage, in hundredths of a percent.
    pub fn average(&self) -> (r: u64)
        requires
            self.wf(),
        ensures
            r == self.spec_average(),
    {
        if self.capacity == 0 {
            return 0;
        }
        let mut sum: u64 = 0;
        let mut i: usize = 0;
        while i < self.window.len()
            invariant
                self.wf(),
                i <= self.window@.len(),
                sum == sum_of(self.window@.take(i as int)),
                sum <= i * CPU_USAGE_MAX,
            decreases self.window@.len() - i,
        {
            proof {
                assert(self.window@.take(i + 1).drop_last() =~= self.window@.take(i as int));
                assert(self.window@.take(i + 1).last() == self.window@[i as int]);
                assert((i + 1) * CPU_USAGE_MAX == i * CPU_USAGE_MAX + CPU_USAGE_MAX)
                    by (nonlinear_arith);
                assert(i * CPU_USAGE_MAX <= MAX_THRESHOLD_MIN * CPU_USAGE_MAX) by {
                    lemma_mul_inequality(i as int, MAX_THRESHOLD_MIN as int, CPU_USAGE_MAX as int);
                }
            }
            sum = sum + self.window[i];
            i = i + 1;
        }
        proof {
            assert(self.window@.take(self.window@.len() as int) =~= self.window@);
        }
        sum / (self.capacity as u64)
    }
}

/// Sum of a window holding `n` copies of `v`.
pub proof fn lemma_sum_constant(n: nat, v: u64)
    ensures
        sum_of(Seq::new(n, |i: int| v)) == n * v,
    decreases n,
{
    if n == 0 {
        assert(Seq::new(0nat, |i: int| v).len() == 0);
    } else {
        let s = Seq::new(n, |i: int| v);
        lemma_sum_constant((n - 1) as nat, v);
        assert(s.drop_last() =~= Seq::new((n - 1) as nat, |i: int| v));
        assert(n * v == (n - 1) * v + v) by (nonlinear_arith);
    }
}

/// Feeding a window `k` samples of the same value leaves its newest
/// `min(k, capacity)` slots holding that value, the samples it held before
/// shifted behind them, and its length grown by one per insertion up to the
/// available slots.
pub proof fn lemma_feed_constant(s: Seq<u64>, capacity: int, v: u64, k: nat)
    requires
        1 <= capacity,
        s.len() <= capacity,
    ensures
        ({
            let r = window_feed(s, capacity, Seq::new(k, |i: int| v));
            &&& r.len() == if s.len() + k <= capacity {
                s.len() + k
            } else {
                capacity as nat
            }
            &&& forall|i: int| 0 <= i < r.len() && i < k ==> r[i] == v
            &&& forall|i: int| k <= i < r.len() ==> r[i] == s[i - k]
        }),
    decreases k,
{
    let inputs = Seq::new(k, |i: int| v);
    if k == 0 {
        assert(window_feed(s, capacity, inputs) =~= s);
    } else {
        lemma_feed_constant(s, capacity, v, (k - 1) as nat);
        let prev = window_feed(s, capacity, Seq::new((k - 1) as nat, |i: int| v));
        assert(inputs.drop_last() =~= Seq::new((k - 1) as nat, |i: int| v));
        assert(inputs.last() == v);
        let r = window_feed(s, capacity, inputs);
        assert(r == window_push(prev, capacity, v));
    }
}

/// Law: a window fed a constant value `v` for at least `capacity` ticks
/// converges, and the average reports exactly `v`.
pub proof fn lemma_constant_feed_converges(f: MovingAverageFilter, v: u64, k: nat)
    requires
        f.wf(),
        1 <= f.capacity,
        v <= CPU_USAGE_MAX,
        k >= f.capacity,
    ensures
        window_feed(f.window@, f.capacity as int, Seq::new(k, |i: int| v))
            =~= Seq::new(f.capacity as nat, |i: int| v),
        window_average(Seq::new(f.capacity as nat, |i: int| v), f.capacity as int) == v,
{
    lemma_feed_constant(f.window@, f.capacity as int, v, k);
    let r = window_feed(f.window@, f.capacity as int, Seq::new(k, |i: int| v));
    assert(r =~= Seq::new(f.capacity as nat, |i: int| v));
    lemma_sum_constant(f.capacity as nat, v);
    assert((f.capacity as int * v) / f.capacity as int == v) by {
        vstd::arithmetic::div_mod::lemma_div_multiples_vanish(v as int, f.capacity as int);
    }
}

/// Law: a window fed fewer samples than its capacity understates a
/// positive constant input, because the divisor is the configured
/// capacity, not the number of samples collected: the average is
/// `k * v / capacity`, strictly below `v`.
pub proof fn lemma_warm_up_bias(capacity: usize, v: u64, k: nat)
    requires
        1 <= capacity,
        k < capacity,
        v > 0,
    ensures
        window_feed(Seq::<u64>::empty(), capacity as int, Seq::new(k, |i: int| v)) =~= Seq::new(
            k,
            |i: int| v,
        ),
        window_average(Seq::new(k, |i: int| v), capacity as int) == (k * v) / (capacity as int),
        (k * v) / (capacity as int) < v,
{
    lemma_feed_constant(Seq::<u64>::empty(), capacity as int, v, k);
    let w = window_feed(Seq::<u64>::empty(), capacity as int, Seq::new(k, |i: int| v));
    assert(w =~= Seq::new(k, |i: int| v));
    lemma_sum_constant(k, v);
    let c = capacity as int;
    let q = (k * v) / c;
    lemma_fundamental_div_mod(k * v as int, c);
    assert(c * q <= k * v);
    assert(k * v < c * v) by {
        lemma_mul_strict_inequality(k as int, c, v as int);
    }
    if q >= v {
        assert(c * v <= c * q) by {
            lemma_mul_inequality(v as int, q, c);
            assert(v as int * c == c * v) by (nonlinear_arith);
            assert(q * c == c * q) by (nonlinear_arith);
        }
        assert(false);
    }
}

} // verus!
