use screen_recorder::capture::CaptureLoop;
use screen_recorder::pacing::{pacing_wait_plan, simulate_pacing, target_interval_ns};
use screen_recorder::stats::{average_rate_centi_fps, stats_interval_due};

#[test]
fn target_interval_exact_values() {
    assert_eq!(target_interval_ns(30), 33_333_333);
    assert_eq!(target_interval_ns(1), 1_000_000_000);
    assert_eq!(target_interval_ns(60), 16_666_666);
    assert_eq!(target_interval_ns(120), 8_333_333);
}

#[test]
fn wait_plan_slow_frame_never_waits() {
    let target = target_interval_ns(30);
    let plan = pacing_wait_plan(target, target);
    assert_eq!(plan.coarse_ns, 0);
    assert!(!plan.spin);
    let plan = pacing_wait_plan(target, target + 5_000_000);
    assert_eq!(plan.coarse_ns, 0);
    assert!(!plan.spin);
}

#[test]
fn wait_plan_fast_frame_sleeps_short_then_spins() {
    let target = target_interval_ns(30);
    // 10ms used, ~23.3ms left: coarse sleep stops 1ms short, then spin
    let plan = pacing_wait_plan(target, 10_000_000);
    assert!(plan.spin);
    assert_eq!(plan.coarse_ns, target - 10_000_000 - 1_000_000);
    // remainder at most 2ms: no coarse sleep, spin only
    let plan = pacing_wait_plan(target, target - 2_000_000);
    assert!(plan.spin);
    assert_eq!(plan.coarse_ns, 0);
}

#[test]
fn hundred_frames_at_30fps_within_one_percent() {
    // simulated clock, instantaneous acquisition: 100 frames at 30 fps
    let acquires = vec![0u64; 100];
    let (total, max_gap) = simulate_pacing(30, &acquires);
    let ideal = 100u64 * 1_000_000_000 / 30;
    let diff = if total > ideal { total - ideal } else { ideal - total };
    assert!(diff * 100 <= ideal, "total {} not within 1% of {}", total, ideal);
    assert_eq!(total, 100 * 33_333_333);
    assert!(max_gap <= target_interval_ns(30));
}

#[test]
fn slow_frames_do_not_accumulate_waits() {
    // a slow frame paces only relative to the previous delivery
    let target = target_interval_ns(30);
    let acquires = vec![target + 7_000_000, 0, 0];
    let (total, max_gap) = simulate_pacing(30, &acquires);
    assert_eq!(total, (target + 7_000_000) + target + target);
    assert_eq!(max_gap, target + 7_000_000);
}

#[test]
fn capture_loop_duration_cutoff() {
    let lp = CaptureLoop::new(30, 2, 1_000);
    assert!(!lp.duration_reached(1_000));
    assert!(!lp.duration_reached(1_000 + 1_999_999_999));
    assert!(lp.duration_reached(1_000 + 2_000_000_000));
    // unbounded run never reaches a duration
    let lp = CaptureLoop::new(30, 0, 0);
    assert!(!lp.duration_reached(u64::MAX / 2));
}

#[test]
fn capture_loop_reports_every_hundred_frames() {
    let mut lp = CaptureLoop::new(30, 0, 0);
    let mut reports = 0;
    for i in 1..=250u64 {
        let due = lp.on_frame_delivered(i);
        if due {
            reports += 1;
            assert!(i % 100 == 0, "report at frame {}", i);
        }
    }
    assert_eq!(reports, 2);
    assert_eq!(lp.frame_count, 250);
}

#[test]
fn capture_loop_stall_warning_window() {
    let mut lp = CaptureLoop::new(30, 0, 0);
    // pending under five seconds: no warning
    assert!(!lp.on_pending(4_999_999_999));
    // past five seconds: one warning, and the window resets
    assert!(lp.on_pending(5_000_000_001));
    assert_eq!(lp.last_success_ns, 5_000_000_001);
    // immediately after the reset: quiet again
    assert!(!lp.on_pending(5_000_000_002));
    // a delivered frame also resets the window
    lp.on_frame_delivered(6_000_000_000);
    assert!(!lp.on_pending(10_000_000_000));
    assert!(lp.on_pending(11_000_000_001));
}

#[test]
fn capture_loop_wait_plan_relative_to_last_delivery() {
    let mut lp = CaptureLoop::new(30, 0, 0);
    lp.mark_frame_paced(1_000_000);
    let plan = lp.wait_plan(1_000_000 + 30_000_000);
    // 3.33ms remain: coarse sleep of 2.33ms, then spin
    assert!(plan.spin);
    assert_eq!(plan.coarse_ns, 33_333_333 - 30_000_000 - 1_000_000);
}

#[test]
fn stats_interval_every_ten_seconds() {
    assert!(!stats_interval_due(0, 9_999_999_999));
    assert!(stats_interval_due(0, 10_000_000_000));
    assert!(stats_interval_due(5_000_000_000, 15_000_000_000));
}

#[test]
fn average_rate_exact_value() {
    // 300 frames over 10 seconds: 30.00 fps
    assert_eq!(average_rate_centi_fps(300, 10_000_000_000), 3000);
    // 100 frames over 3.3333333 seconds: 30.00 fps (rounded down)
    assert_eq!(average_rate_centi_fps(100, 3_333_333_300), 3000);
    // 1 frame over 8 seconds: 0.12 fps
    assert_eq!(average_rate_centi_fps(1, 8_000_000_000), 12);
    // a report triggered under a second into a fast run still has a rate:
    // 100 frames in 5/6 of a second is 120.00 fps
    assert_eq!(average_rate_centi_fps(100, 833_333_300), 12000);
}
