//! The stats monitor: purely observational throughput reporting. It
//! decides when a report is due and what rate to report; it never affects
//! pacing or lifecycle decisions.

use vstd::prelude::*;

verus! {

/// Wall-time between two reports of a live run, in nanoseconds.
pub const REPORT_PERIOD_NS: u64 = 10_000_000_000;

/// Whether a wall-time report is due, one [`REPORT_PERIOD_NS`] after the
/// previous one.
pub fn stats_interval_due(last_report_ns: u64, now_ns: u64) -> (r: bool)
    requires
        now_ns >= last_report_ns,
    ensures
        r == (now_ns - last_report_ns >= REPORT_PERIOD_NS),
{
    now_ns - last_report_ns >= REPORT_PERIOD_NS
}

/// The measured delivery rate in hundredths of a frame per second:
/// `frames / elapsed`, with the elapsed time given in nanoseconds. A
/// millisecond of elapsed time suffices, so even a report triggered well
/// under a second into the run has a rate.
pub fn average_rate_centi_fps(frames: u64, elapsed_ns: u64) -> (r: u64)
    requires
        elapsed_ns >= 1_000_000,
        frames <= u32::MAX as u64,
    ensures
        r == (frames * 100_000_000_000) as nat / elapsed_ns as nat,
{
    let num: u128 = (frames as u128) * 100_000_000_000;
    let q: u128 = num / (elapsed_ns as u128);
    proof {
        vstd::arithmetic::div_mod::lemma_div_is_ordered_by_denominator(
            num as int,
            1_000_000,
            elapsed_ns as int,
        );
        assert(frames as int * 100_000_000_000 == 1_000_000 * (frames as int * 100_000))
            by (nonlinear_arith);
        vstd::arithmetic::div_mod::lemma_div_multiples_vanish(
            frames as int * 100_000,
            1_000_000,
        );
        assert(num as int / 1_000_000 == frames as int * 100_000);
        assert(q <= frames as int * 100_000);
        assert(frames as int * 100_000 <= u64::MAX) by (nonlinear_arith)
            requires
                frames <= u32::MAX as u64,
        ;
    }
    q as u64
}

} // verus!
