//! Frame pacing: the hybrid coarse-sleep / busy-wait strategy that holds
//! frame delivery to a target interval, and a simulated-clock model of the
//! paced loop with its accuracy guarantee.

use vstd::prelude::*;
use vstd::arithmetic::div_mod::lemma_fundamental_div_mod;

verus! {

/// Nanoseconds per frame at the target rate: `1s / fps`, rounded down.
pub open spec fn spec_target_interval_ns(fps: u32) -> nat
    recommends
        fps >= 1,
{
    (1_000_000_000 as nat) / (fps as nat)
}

/// Computes the target inter-frame interval in nanoseconds.
pub fn target_interval_ns(fps: u32) -> (r: u64)
    requires
        fps >= 1,
    ensures
        r == spec_target_interval_ns(fps),
        r <= 1_000_000_000,
{
    1_000_000_000u64 / (fps as u64)
}

/// How to wait before acquiring the next frame: a coarse sleep of
/// `coarse_ns`, then (when `spin` is set) a scheduler-yielding busy-wait
/// until the full interval since the last delivery has elapsed.
#[derive(Debug, Clone, Copy, PartialEq, Eq, Structural)]
pub struct WaitPlan {
    /// Length of the coarse sleep, in nanoseconds.
    pub coarse_ns: u64,
    /// Whether to busy-wait out the remainder of the interval.
    pub spin: bool,
}

/// The wait before the next acquisition, given the interval target and the
/// time already spent since the last delivery. A slow frame (elapsed at or
/// past the target) waits not at all: the loop paces only relative to the
/// previous delivery and never compensates for cumulative drift. Otherwise
/// the coarse sleep stops one millisecond short of the remainder (and is
/// skipped entirely for remainders of at most two milliseconds), and the
/// busy-wait covers what is left.
pub fn pacing_wait_plan(target_ns: u64, elapsed_ns: u64) -> (r: WaitPlan)
    ensures
        elapsed_ns >= target_ns ==> r == (WaitPlan { coarse_ns: 0, spin: false }),
        elapsed_ns < target_ns ==> {
            &&& r.spin
            &&& r.coarse_ns == if target_ns - elapsed_ns > 2_000_000 {
                target_ns - elapsed_ns - 1_000_000
            } else {
                0
            }
        },
        // the coarse sleep alone never reaches the target; the spin tail
        // finishes the interval
        elapsed_ns < target_ns ==> elapsed_ns + r.coarse_ns < target_ns,
{
    if elapsed_ns >= target_ns {
        WaitPlan { coarse_ns: 0, spin: false }
    } else {
        let remainder = target_ns - elapsed_ns;
        let coarse = if remainder > 2_000_000 {
            remainder - 1_000_000
        } else {
            0
        };
        WaitPlan { coarse_ns: coarse, spin: true }
    }
}

/// The simulated gap between two deliveries: acquisition time when the
/// frame was slow, the full target interval otherwise (the busy-wait tail
/// runs the clock out to the target exactly).
pub open spec fn spec_paced_gap(target: nat, acquire: nat) -> nat {
    if acquire >= target {
        acquire
    } else {
        target
    }
}

/// Total simulated time for a run of deliveries with the given per-frame
/// acquisition times.
pub open spec fn spec_total_paced(target: nat, acquires: Seq<nat>) -> nat
    decreases acquires.len(),
{
    if acquires.len() == 0 {
        0
    } else {
        spec_total_paced(target, acquires.drop_last()) + spec_paced_gap(target, acquires.last())
    }
}

/// The largest simulated inter-frame gap of the run (0 for an empty run).
pub open spec fn spec_max_paced_gap(target: nat, acquires: Seq<nat>) -> nat
    decreases acquires.len(),
{
    if acquires.len() == 0 {
        0
    } else {
        let rest = spec_max_paced_gap(target, acquires.drop_last());
        let last = spec_paced_gap(target, acquires.last());
        if last >= rest {
            last
        } else {
            rest
        }
    }
}

/// Runs the pacing algorithm against a simulated clock: frame `i` takes
/// `acquires[i]` nanoseconds to acquire, and the pacing wait then runs the
/// clock out to the target interval. Returns the total simulated time and
/// the largest single inter-frame gap.
pub fn simulate_pacing(fps: u32, acquires: &Vec<u64>) -> (r: (u64, u64))
    requires
        fps >= 1,
        acquires@.len() <= 1_000_000,
        forall|i: int| 0 <= i < acquires@.len() ==> acquires@[i] <= 1_000_000_000_000,
    ensures
        r.0 == spec_total_paced(
            spec_target_interval_ns(fps),
            acquires@.map_values(|a: u64| a as nat),
        ),
        r.1 == spec_max_paced_gap(
            spec_target_interval_ns(fps),
            acquires@.map_values(|a: u64| a as nat),
        ),
{
    let target = target_interval_ns(fps);
    let ghost m = acquires@.map_values(|a: u64| a as nat);
    let mut total: u64 = 0;
    let mut max_gap: u64 = 0;
    let mut i: usize = 0;
    while i < acquires.len()
        invariant
            i <= acquires@.len(),
            acquires@.len() <= 1_000_000,
            forall|j: int| 0 <= j < acquires@.len() ==> acquires@[j] <= 1_000_000_000_000,
            target == spec_target_interval_ns(fps),
            target <= 1_000_000_000,
            m == acquires@.map_values(|a: u64| a as nat),
            total == spec_total_paced(target as nat, m.subrange(0, i as int)),
            max_gap == spec_max_paced_gap(target as nat, m.subrange(0, i as int)),
            total <= i * 1_000_000_000_000,
            max_gap <= 1_000_000_000_000,
        decreases acquires@.len() - i,
    {
        let a = acquires[i];
        let gap = if a >= target {
            a
        } else {
            target
        };
        proof {
            let p = m.subrange(0, i + 1);
            assert(p.drop_last() =~= m.subrange(0, i as int));
            assert(p.last() == m[i as int]);
            assert(gap as nat == spec_paced_gap(target as nat, m[i as int]));
            assert((i + 1) * 1_000_000_000_000 == i * 1_000_000_000_000 + 1_000_000_000_000)
                by (nonlinear_arith);
        }
        total = total + gap;
        if gap > max_gap {
            max_gap = gap;
        }
        i = i + 1;
    }
    proof {
        assert(m.subrange(0, m.len() as int) =~= m);
    }
    (total, max_gap)
}

/// Accuracy of the paced loop: when no frame is slow, the run takes
/// exactly `n` target intervals, no gap exceeds the target, and the total
/// falls short of the ideal `n / fps` seconds by less than one percent
/// (the only error is the rounding of the interval to whole nanoseconds).
pub proof fn lemma_pacing_accuracy(fps: u32, acquires: Seq<nat>)
    requires
        1 <= fps <= 120,
        forall|i: int| 0 <= i < acquires.len() ==> acquires[i]
            <= spec_target_interval_ns(fps),
    ensures
        spec_total_paced(spec_target_interval_ns(fps), acquires) == acquires.len()
            * spec_target_interval_ns(fps),
        spec_max_paced_gap(spec_target_interval_ns(fps), acquires) <= spec_target_interval_ns(fps),
        fps as nat * spec_total_paced(spec_target_interval_ns(fps), acquires) <= acquires.len()
            * 1_000_000_000,
        100 * (acquires.len() * 1_000_000_000 - fps as nat * spec_total_paced(
            spec_target_interval_ns(fps),
            acquires,
        )) <= acquires.len() * 1_000_000_000,
    decreases acquires.len(),
{
    let target = spec_target_interval_ns(fps);
    let n = acquires.len();
    lemma_fundamental_div_mod(1_000_000_000, fps as int);
    if n == 0 {
        assert(spec_total_paced(target, acquires) == 0);
    } else {
        lemma_pacing_accuracy(fps, acquires.drop_last());
        assert(spec_paced_gap(target, acquires.last()) == target);
        assert(spec_total_paced(target, acquires) == (n - 1) * target + target);
        assert((n - 1) * target + target == n * target) by (nonlinear_arith);
    }
    let total = spec_total_paced(target, acquires);
    assert(total == n * target);
    let rem = 1_000_000_000 - (fps as nat) * target;
    assert(0 <= rem < fps);
    assert(fps as nat * (n * target) == n * (fps as nat * target)) by (nonlinear_arith);
    assert(n * (fps as nat * target) + n * rem == n * ((fps as nat * target) + rem))
        by (nonlinear_arith);
    assert(n * ((fps as nat * target) + rem) == n * 1_000_000_000);
    assert(n * 1_000_000_000 - fps as nat * total == n * rem);
    assert(100 * (n * rem) == n * (100 * rem)) by (nonlinear_arith);
    assert(100 * rem <= 1_000_000_000);
    assert(n * (100 * rem) <= n * 1_000_000_000) by (nonlinear_arith)
        requires
            100 * rem <= 1_000_000_000,
    ;
}

} // verus!
