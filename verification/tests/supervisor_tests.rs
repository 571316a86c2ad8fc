use screen_recorder::encoder::{audio_device_listed, init_ffmpeg};
use screen_recorder::supervisor::{
    FailureKind, RunOutcome, Supervisor, SupervisorAction, SupervisorEvent, SupervisorState,
};

#[test]
fn init_always_succeeds() {
    assert!(init_ffmpeg().is_ok());
}

#[test]
fn duration_limited_run_ends_with_duration_elapsed() {
    // a mock subprocess that never exits on its own: only the duration
    // timer and the kill it requests end the run
    let mut s = Supervisor::new();
    assert_eq!(s.state, SupervisorState::Spawning);

    let (a, o, _) = s.step(SupervisorEvent::SpawnOk);
    assert_eq!(a, SupervisorAction::StartPipeline);
    assert!(o.is_none());
    assert_eq!(s.state, SupervisorState::Running);

    let (a, o, _) = s.step(SupervisorEvent::DurationTimer);
    assert_eq!(a, SupervisorAction::CloseInputThenKill);
    assert!(o.is_none());
    assert_eq!(s.state, SupervisorState::DrainingOnDuration);

    let (a, o, warn) = s.step(SupervisorEvent::ExitStatusReady(0));
    assert_eq!(a, SupervisorAction::Idle);
    assert_eq!(o, Some(RunOutcome::DurationElapsed));
    assert!(!warn);
    assert_eq!(s.state, SupervisorState::Terminated);
}

#[test]
fn closing_input_precedes_wait_on_every_drain() {
    for event in [
        SupervisorEvent::DurationTimer,
        SupervisorEvent::CancelRequest,
        SupervisorEvent::SubprocessEnded,
        SupervisorEvent::CaptureFatal,
    ] {
        let mut s = Supervisor::new();
        s.step(SupervisorEvent::SpawnOk);
        let (a, _, _) = s.step(event);
        assert!(
            a == SupervisorAction::CloseInputThenKill || a == SupervisorAction::CloseInputThenWait,
            "drain entry for {:?} must close the input stream first",
            event
        );
        // and the exit is then resolved without deadlock
        let (_, o, _) = s.step(SupervisorEvent::ExitStatusReady(0));
        assert!(o.is_some());
        assert_eq!(s.state, SupervisorState::Terminated);
    }
}

#[test]
fn spawn_failure_is_fatal() {
    let mut s = Supervisor::new();
    let (_, o, _) = s.step(SupervisorEvent::SpawnFail);
    assert_eq!(o, Some(RunOutcome::Failure(FailureKind::SpawnFailed)));
    assert_eq!(s.state, SupervisorState::Terminated);
}

#[test]
fn broken_pipe_terminates_with_failure() {
    let mut s = Supervisor::new();
    s.step(SupervisorEvent::SpawnOk);
    let (_, o, _) = s.step(SupervisorEvent::WriteBrokenPipe);
    assert_eq!(o, Some(RunOutcome::Failure(FailureKind::BrokenPipe)));
    assert_eq!(s.state, SupervisorState::Terminated);
}

#[test]
fn capture_fatal_drains_then_reports_failure() {
    let mut s = Supervisor::new();
    s.step(SupervisorEvent::SpawnOk);
    let (a, o, _) = s.step(SupervisorEvent::CaptureFatal);
    assert_eq!(a, SupervisorAction::CloseInputThenKill);
    assert!(o.is_none());
    let (_, o, _) = s.step(SupervisorEvent::ExitStatusReady(0));
    assert_eq!(o, Some(RunOutcome::Failure(FailureKind::CaptureFatal)));
}

#[test]
fn natural_exit_zero_is_normal_completion() {
    let mut s = Supervisor::new();
    s.step(SupervisorEvent::SpawnOk);
    let (a, _, _) = s.step(SupervisorEvent::SubprocessEnded);
    assert_eq!(a, SupervisorAction::CloseInputThenWait);
    let (_, o, warn) = s.step(SupervisorEvent::ExitStatusReady(0));
    assert_eq!(o, Some(RunOutcome::NormalCompletion));
    assert!(!warn);
}

#[test]
fn nonzero_exit_warns_but_is_not_a_failure() {
    let mut s = Supervisor::new();
    s.step(SupervisorEvent::SpawnOk);
    s.step(SupervisorEvent::SubprocessEnded);
    let (_, o, warn) = s.step(SupervisorEvent::ExitStatusReady(1));
    assert_eq!(o, Some(RunOutcome::SubprocessExitedEarly(1)));
    assert!(warn);

    // on the duration path the outcome stays DurationElapsed
    let mut s = Supervisor::new();
    s.step(SupervisorEvent::SpawnOk);
    s.step(SupervisorEvent::DurationTimer);
    let (_, o, warn) = s.step(SupervisorEvent::ExitStatusReady(137));
    assert_eq!(o, Some(RunOutcome::DurationElapsed));
    assert!(warn);
}

#[test]
fn termination_requests_are_idempotent() {
    let mut s = Supervisor::new();
    s.step(SupervisorEvent::SpawnOk);
    s.step(SupervisorEvent::CancelRequest);
    let before = s;
    let (a, o, _) = s.step(SupervisorEvent::CancelRequest);
    assert_eq!(s, before);
    assert_eq!(a, SupervisorAction::Idle);
    assert!(o.is_none());
    let (a, o, _) = s.step(SupervisorEvent::DurationTimer);
    assert_eq!(s, before);
    assert_eq!(a, SupervisorAction::Idle);
    assert!(o.is_none());
    let (_, o, _) = s.step(SupervisorEvent::ExitStatusReady(0));
    assert_eq!(o, Some(RunOutcome::CancelledExternally));
}

#[test]
fn terminated_is_absorbing() {
    let mut s = Supervisor::new();
    s.step(SupervisorEvent::SpawnOk);
    s.step(SupervisorEvent::CancelRequest);
    s.step(SupervisorEvent::ExitStatusReady(0));
    let before = s;
    for event in [
        SupervisorEvent::SpawnOk,
        SupervisorEvent::DurationTimer,
        SupervisorEvent::CancelRequest,
        SupervisorEvent::ExitStatusReady(1),
    ] {
        let (a, o, _) = s.step(event);
        assert_eq!(s, before);
        assert_eq!(a, SupervisorAction::Idle);
        assert!(o.is_none());
    }
}

#[test]
fn audio_probe_matches_case_insensitively() {
    let listing = "DirectShow audio devices\n  \"Microphone (USB Audio)\"\n";
    assert!(audio_device_listed(listing, "microphone (usb audio)"));
    assert!(audio_device_listed(listing, "MICROPHONE"));
    assert!(audio_device_listed(listing, "Microphone"));
    assert!(!audio_device_listed(listing, "Line In"));
    // an empty query is always listed
    assert!(audio_device_listed(listing, ""));
}
