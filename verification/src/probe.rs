//! The activity probe: is sound audible right now?
//!
//! Three backends answer the question; one is chosen at startup. The I/O
//! that gathers each backend's raw material (status records, a monitor
//! capture buffer, introspection entries) lives outside the library; the
//! decision on that material is made here.
//!
//! A probe read can fail transiently. A failed read is handed to the
//! engine as the absence of a result, and the engine then leaves every
//! accumulator untouched for that tick: a failure must never be read as
//! silence or as activity.

use vstd::arithmetic::mul::lemma_mul_inequality;
use vstd::arithmetic::mul::lemma_mul_upper_bound;
use vstd::prelude::*;

verus! {

/// Which backend produced a probe result.
#[derive(Clone, Copy, Debug, PartialEq, Eq, Structural)]
pub enum ProbeKind {
    /// A walk over card/device/substream status records.
    StructuralScan,
    /// An RMS measurement of a monitor capture buffer.
    MonitorRms,
    /// A count of running entries from a subsystem introspection query.
    SubsystemQuery,
}

/// One tick's answer from the chosen probe backend.
#[derive(Clone, Copy, Debug, PartialEq, Eq, Structural)]
pub struct ProbeResult {
    pub audible: bool,
    pub kind: ProbeKind,
}

/// State of one playback substream in the structural hierarchy.
#[derive(Clone, Copy, Debug, PartialEq, Eq, Structural)]
pub enum SubstreamStatus {
    Running,
    Idle,
}

/// Status records of one device: the states of its substreams.
#[derive(Debug)]
pub struct DeviceStatus {
    pub substreams: Vec<SubstreamStatus>,
}

/// Status records of one card: its devices.
#[derive(Debug)]
pub struct CardStatus {
    pub devices: Vec<DeviceStatus>,
}

pub open spec fn device_active(d: DeviceStatus) -> bool {
    exists|i: int| 0 <= i < d.substreams@.len() && d.substreams@[i] is Running
}

pub open spec fn card_active(c: CardStatus) -> bool {
    exists|i: int| 0 <= i < c.devices@.len() && device_active(c.devices@[i])
}

pub open spec fn any_substream_running(cards: Seq<CardStatus>) -> bool {
    exists|i: int| 0 <= i < cards.len() && card_active(cards[i])
}

/// Walks the card → device → substream hierarchy and reports whether any
/// substream is in a running state.
pub fn structural_scan(cards: &Vec<CardStatus>) -> (r: bool)
    ensures
        r == any_substream_running(cards@),
{
    let mut ci: usize = 0;
    while ci < cards.len()
        invariant
            ci <= cards@.len(),
            forall|i: int| 0 <= i < ci ==> !card_active(cards@[i]),
        decreases cards@.len() - ci,
    {
        let card = &cards[ci];
        let mut di: usize = 0;
        while di < card.devices.len()
            invariant
                ci < cards@.len(),
                *card == cards@[ci as int],
                di <= card.devices@.len(),
                forall|i: int| 0 <= i < di ==> !device_active(card.devices@[i]),
            decreases card.devices@.len() - di,
        {
            let device = &card.devices[di];
            let mut si: usize = 0;
            while si < device.substreams.len()
                invariant
                    ci < cards@.len(),
                    *card == cards@[ci as int],
                    di < card.devices@.len(),
                    *device == card.devices@[di as int],
                    si <= device.substreams@.len(),
                    forall|i: int| 0 <= i < si ==> !(device.substreams@[i] is Running),
                decreases device.substreams@.len() - si,
            {
                if matches!(device.substreams[si], SubstreamStatus::Running) {
                    assert(device_active(card.devices@[di as int]));
                    assert(card_active(cards@[ci as int]));
                    return true;
                }
                si = si + 1;
            }
            assert(!device_active(card.devices@[di as int]));
            di = di + 1;
        }
        assert(!card_active(cards@[ci as int]));
        ci = ci + 1;
    }
    false
}

/// Sum over a capture buffer of the squared distance of each unsigned
/// sample from the midpoint 128.
pub open spec fn sum_squares(s: Seq<u8>) -> int
    decreases s.len(),
{
    if s.len() == 0 {
        0
    } else {
        sum_squares(s.drop_last()) + (s.last() - 128) * (s.last() - 128)
    }
}

/// Whether the RMS amplitude of a buffer of unsigned 8-bit samples,
/// normalized to [0, 1] around the midpoint 128, reaches a threshold given
/// in millionths. The RMS is sqrt(sum_squares / (len * 128 * 128)), so
/// comparing it against threshold/1_000_000 is, squared and
/// cross-multiplied, this exact integer inequality. An empty buffer is
/// never audible.
pub open spec fn rms_at_least(s: Seq<u8>, threshold_micro: int) -> bool {
    &&& s.len() > 0
    &&& sum_squares(s) * 1_000_000_000_000 >= threshold_micro * threshold_micro * 16384
        * s.len()
}

/// Largest capture buffer the RMS decision accepts; keeps the running sum
/// within `u64`.
pub const MAX_RMS_BUFFER_LEN: usize = 100_000_000;

/// Decides whether a monitor capture buffer counts as audible: its RMS
/// amplitude, normalized around the midpoint, reaches the threshold (in
/// millionths of full scale). The comparison is exact.
pub fn monitor_buffer_active(buf: &Vec<u8>, threshold_micro: u32) -> (r: bool)
    requires
        buf@.len() <= MAX_RMS_BUFFER_LEN,
    ensures
        r == rms_at_least(buf@, threshold_micro as int),
{
    if buf.len() == 0 {
        return false;
    }
    let mut sum: u64 = 0;
    let mut i: usize = 0;
    while i < buf.len()
        invariant
            buf@.len() <= MAX_RMS_BUFFER_LEN,
            i <= buf@.len(),
            sum == sum_squares(buf@.take(i as int)),
            sum <= i * 16384,
        decreases buf@.len() - i,
    {
        let b = buf[i];
        let d: u64 = if b >= 128 {
            (b - 128) as u64
        } else {
            (128 - b) as u64
        };
        proof {
            assert(buf@.take(i + 1).drop_last() =~= buf@.take(i as int));
            assert(buf@.take(i + 1).last() == buf@[i as int]);
            let e = buf@[i as int] - 128;
            assert(e * e == d * d) by (nonlinear_arith)
                requires
                    d == if e >= 0 { e } else { -e },
            ;
            assert(d * d <= 16384) by (nonlinear_arith)
                requires
                    0 <= d <= 128,
            ;
            assert((i + 1) * 16384 == i * 16384 + 16384) by (nonlinear_arith);
            assert(i * 16384 <= MAX_RMS_BUFFER_LEN * 16384) by {
                lemma_mul_inequality(i as int, MAX_RMS_BUFFER_LEN as int, 16384);
            }
        }
        sum = sum + d * d;
        i = i + 1;
    }
    proof {
        assert(buf@.take(buf@.len() as int) =~= buf@);
        assert(sum * 1_000_000_000_000 <= (MAX_RMS_BUFFER_LEN * 16384) * 1_000_000_000_000) by {
            lemma_mul_inequality(
                sum as int,
                MAX_RMS_BUFFER_LEN as int * 16384,
                1_000_000_000_000,
            );
        }
        let t = threshold_micro as int;
        assert(t * t <= 0xffff_ffff * 0xffff_ffff) by (nonlinear_arith)
            requires
                0 <= t <= 0xffff_ffff,
        ;
        assert(t * t * 16384 <= 0xffff_ffff * 0xffff_ffff * 16384);
        assert(t * t * 16384 * buf@.len() <= (0xffff_ffff * 0xffff_ffff * 16384)
            * MAX_RMS_BUFFER_LEN) by {
            lemma_mul_upper_bound(
                t * t * 16384,
                0xffff_ffff as int * 0xffff_ffff * 16384,
                buf@.len() as int,
                MAX_RMS_BUFFER_LEN as int,
            );
        }
    }
    let lhs: u128 = (sum as u128) * 1_000_000_000_000u128;
    let rhs: u128 = (threshold_micro as u128) * (threshold_micro as u128) * 16384u128
        * (buf.len() as u128);
    lhs >= rhs
}

/// State of one entry reported by a subsystem introspection query.
#[derive(Clone, Copy, Debug, PartialEq, Eq, Structural)]
pub enum SubsystemState {
    Running,
    Idle,
    Suspended,
}

/// How many entries report a running state.
pub open spec fn count_running(s: Seq<SubsystemState>) -> int
    decreases s.len(),
{
    if s.len() == 0 {
        0
    } else {
        count_running(s.drop_last()) + if s.last() is Running {
            1int
        } else {
            0int
        }
    }
}

/// Counts the entries of an introspection answer that report a running
/// state.
pub fn count_running_entries(entries: &Vec<SubsystemState>) -> (n: usize)
    ensures
        n == count_running(entries@),
{
    let mut n: usize = 0;
    let mut i: usize = 0;
    while i < entries.len()
        invariant
            i <= entries@.len(),
            n == count_running(entries@.take(i as int)),
            n <= i,
        decreases entries@.len() - i,
    {
        proof {
            assert(entries@.take(i + 1).drop_last() =~= entries@.take(i as int));
            assert(entries@.take(i + 1).last() == entries@[i as int]);
        }
        if matches!(entries[i], SubsystemState::Running) {
            n = n + 1;
        }
        i = i + 1;
    }
    proof {
        assert(entries@.take(entries@.len() as int) =~= entries@);
    }
    n
}

/// Decides the subsystem-query probe: audible exactly when at least one
/// entry reports a running state.
pub fn subsystem_active(entries: &Vec<SubsystemState>) -> (r: bool)
    ensures
        r == (count_running(entries@) > 0),
{
    count_running_entries(entries) > 0
}

} // verus!
