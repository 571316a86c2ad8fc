//! Decisions of the native-capture loop: duration cut-off, the stalled
//! capture warning window, pacing, and the per-frame bookkeeping. The
//! loop's I/O — pulling a frame, writing it to the encoder's input pipe,
//! sleeping — is the caller's; every decision in between is made here,
//! over a monotonic clock the caller reads in nanoseconds.

use vstd::prelude::*;

use crate::pacing::{pacing_wait_plan, spec_target_interval_ns, target_interval_ns, WaitPlan};

verus! {

/// How long a retry after an empty poll backs off, in nanoseconds.
pub const PENDING_BACKOFF_NS: u64 = 500_000;

/// Continuous pending time after which the loop warns that capture has
/// stalled, in nanoseconds.
pub const STALL_WARN_NS: u64 = 5_000_000_000;

/// Frames between two throughput reports.
pub const FRAMES_PER_REPORT: u64 = 100;

/// Bookkeeping of the capture loop: when the run started, how many frames
/// were delivered, when the last one was, and when a frame last succeeded
/// (for the stall warning window).
#[derive(Debug, Clone, Copy, PartialEq, Eq, Structural)]
pub struct CaptureLoop {
    /// Target frame rate; at least 1.
    pub fps: u32,
    /// Configured run bound in seconds; 0 means unbounded.
    pub duration_secs: u32,
    /// Clock reading when the run started.
    pub start_ns: u64,
    /// Frames delivered so far.
    pub frame_count: u64,
    /// Clock reading of the last paced delivery.
    pub last_frame_ns: u64,
    /// Clock reading of the last successful acquisition (or of the last
    /// stall warning, which resets the window).
    pub last_success_ns: u64,
}

impl CaptureLoop {
    /// Starts the loop's clock at `now_ns`.
    pub fn new(fps: u32, duration_secs: u32, now_ns: u64) -> (r: CaptureLoop)
        requires
            fps >= 1,
        ensures
            r == (CaptureLoop {
                fps,
                duration_secs,
                start_ns: now_ns,
                frame_count: 0,
                last_frame_ns: now_ns,
                last_success_ns: now_ns,
            }),
    {
        CaptureLoop {
            fps,
            duration_secs,
            start_ns: now_ns,
            frame_count: 0,
            last_frame_ns: now_ns,
            last_success_ns: now_ns,
        }
    }

    /// Whether the configured duration has elapsed (never, for an
    /// unbounded run).
    pub fn duration_reached(&self, now_ns: u64) -> (r: bool)
        requires
            now_ns >= self.start_ns,
        ensures
            r == (self.duration_secs > 0 && now_ns - self.start_ns >= self.duration_secs as u64
                * 1_000_000_000),
    {
        self.duration_secs > 0 && now_ns - self.start_ns >= (self.duration_secs as u64)
            * 1_000_000_000
    }

    /// Records one delivered frame; reports whether a throughput report is
    /// due (every [`FRAMES_PER_REPORT`] frames).
    pub fn on_frame_delivered(&mut self, now_ns: u64) -> (stats_due: bool)
        requires
            old(self).frame_count < u64::MAX,
        ensures
            final(self).frame_count == old(self).frame_count + 1,
            final(self).last_success_ns == now_ns,
            final(self).fps == old(self).fps,
            final(self).duration_secs == old(self).duration_secs,
            final(self).start_ns == old(self).start_ns,
            final(self).last_frame_ns == old(self).last_frame_ns,
            stats_due == (final(self).frame_count % FRAMES_PER_REPORT == 0),
    {
        self.frame_count = self.frame_count + 1;
        self.last_success_ns = now_ns;
        self.frame_count % FRAMES_PER_REPORT == 0
    }

    /// Handles an empty poll (no new frame yet — a retry signal, not an
    /// error). Warns when nothing has succeeded for more than
    /// [`STALL_WARN_NS`], and then resets the window so the warning is not
    /// repeated every retry.
    pub fn on_pending(&mut self, now_ns: u64) -> (warn: bool)
        requires
            now_ns >= old(self).last_success_ns,
        ensures
            warn == (now_ns - old(self).last_success_ns > STALL_WARN_NS),
            final(self).last_success_ns == if warn {
                now_ns
            } else {
                old(self).last_success_ns
            },
            final(self).fps == old(self).fps,
            final(self).duration_secs == old(self).duration_secs,
            final(self).start_ns == old(self).start_ns,
            final(self).frame_count == old(self).frame_count,
            final(self).last_frame_ns == old(self).last_frame_ns,
    {
        if now_ns - self.last_success_ns > STALL_WARN_NS {
            self.last_success_ns = now_ns;
            true
        } else {
            false
        }
    }

    /// The wait to perform before the next acquisition, pacing relative to
    /// the previous delivery only.
    pub fn wait_plan(&self, now_ns: u64) -> (r: WaitPlan)
        requires
            self.fps >= 1,
            now_ns >= self.last_frame_ns,
        ensures
            ({
                let target = spec_target_interval_ns(self.fps);
                let elapsed = now_ns - self.last_frame_ns;
                &&& (elapsed >= target ==> r == (WaitPlan { coarse_ns: 0, spin: false }))
                &&& (elapsed < target ==> r.spin && elapsed + r.coarse_ns < target)
            }),
    {
        let target = target_interval_ns(self.fps);
        pacing_wait_plan(target, now_ns - self.last_frame_ns)
    }

    /// Marks the end of the pacing wait: the next frame paces relative to
    /// `now_ns`.
    pub fn mark_frame_paced(&mut self, now_ns: u64)
        ensures
            final(self).last_frame_ns == now_ns,
            final(self).fps == old(self).fps,
            final(self).duration_secs == old(self).duration_secs,
            final(self).start_ns == old(self).start_ns,
            final(self).frame_count == old(self).frame_count,
            final(self).last_success_ns == old(self).last_success_ns,
    {
        self.last_frame_ns = now_ns;
    }
}

} // verus!
