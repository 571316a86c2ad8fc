//! The process supervisor's lifecycle as a pure state machine.
//!
//! The caller owns the encoder subprocess and feeds observed events into
//! [`Supervisor::step`]; the machine answers with the next state, the
//! action to perform, and — once terminated — the run's outcome. All
//! termination paths drain through a `Draining*` state whose entry action
//! closes the subprocess's input stream before the wait for its exit, so
//! the encoder can flush and finalize its output.

use vstd::prelude::*;

verus! {

/// Lifecycle states of a supervised encoder run.
#[derive(Debug, Clone, Copy, PartialEq, Eq, Structural)]
pub enum SupervisorState {
    /// The subprocess is being spawned.
    Spawning,
    /// The run is in progress (capture loop, or a pure wait).
    Running,
    /// The configured duration elapsed; termination was requested.
    DrainingOnDuration,
    /// Cancellation was requested (externally, or after a fatal capture error).
    DrainingOnCancel,
    /// The subprocess ended on its own; its exit is being reaped.
    DrainingOnExit,
    /// The run is over and the outcome is resolved.
    Terminated,
}

/// The ways a run can fail.
#[derive(Debug, Clone, Copy, PartialEq, Eq, Structural)]
pub enum FailureKind {
    /// The subprocess could not be started.
    SpawnFailed,
    /// A frame write hit a broken pipe.
    BrokenPipe,
    /// The capture backend failed fatally.
    CaptureFatal,
}

/// Terminal result of a run.
#[derive(Debug, Clone, Copy, PartialEq, Eq, Structural)]
pub enum RunOutcome {
    /// The subprocess ended on its own with status zero.
    NormalCompletion,
    /// The configured duration elapsed and the run was wound down.
    DurationElapsed,
    /// An external cancellation wound the run down.
    CancelledExternally,
    /// The subprocess ended on its own with the given nonzero status.
    SubprocessExitedEarly(i32),
    /// The run failed.
    Failure(FailureKind),
}

/// Events the supervisor's owner observes and feeds to the machine.
#[derive(Debug, Clone, Copy, PartialEq, Eq, Structural)]
pub enum SupervisorEvent {
    /// The subprocess started.
    SpawnOk,
    /// The subprocess could not be started.
    SpawnFail,
    /// The duration timer fired.
    DurationTimer,
    /// External cancellation was requested.
    CancelRequest,
    /// A frame write failed with a broken-pipe-class error.
    WriteBrokenPipe,
    /// The capture backend failed fatally.
    CaptureFatal,
    /// The subprocess was observed to have ended on its own.
    SubprocessEnded,
    /// The wait for the subprocess completed with this exit status.
    ExitStatusReady(i32),
}

/// What the caller must do after a transition.
#[derive(Debug, Clone, Copy, PartialEq, Eq, Structural)]
pub enum SupervisorAction {
    /// Nothing.
    Idle,
    /// Start the capture loop (native capture) or the pure wait (grabber-fed).
    StartPipeline,
    /// Close the subprocess's input stream, request termination
    /// (signal/kill), then wait for the exit status.
    CloseInputThenKill,
    /// Close the subprocess's input stream, then wait for the exit status
    /// of the already-ended subprocess.
    CloseInputThenWait,
}

/// The supervisor: the current lifecycle state plus a pending failure that
/// overrides the path outcome once the drain completes.
#[derive(Debug, Clone, Copy, PartialEq, Eq, Structural)]
pub struct Supervisor {
    pub state: SupervisorState,
    pub failure: Option<FailureKind>,
}

/// A transition's full result: successor machine, required action, the
/// run's outcome if it just terminated, and whether a nonzero exit status
/// should be logged as a warning.
pub struct StepResult {
    pub next: Supervisor,
    pub action: SupervisorAction,
    pub outcome: Option<RunOutcome>,
    pub warn_nonzero_exit: bool,
}

/// The outcome resolved when a drain completes with exit status `code`:
/// a pending failure wins; otherwise the path that started the drain
/// names the outcome, and a nonzero status on a natural exit is reported
/// as `SubprocessExitedEarly` (completed with warning, not a failure).
pub open spec fn spec_drain_outcome(s: Supervisor, code: i32) -> RunOutcome
    recommends
        s.state == SupervisorState::DrainingOnDuration || s.state
            == SupervisorState::DrainingOnCancel || s.state == SupervisorState::DrainingOnExit,
{
    match s.failure {
        Some(k) => RunOutcome::Failure(k),
        None => match s.state {
            SupervisorState::DrainingOnDuration => RunOutcome::DurationElapsed,
            SupervisorState::DrainingOnCancel => RunOutcome::CancelledExternally,
            _ => if code == 0 {
                RunOutcome::NormalCompletion
            } else {
                RunOutcome::SubprocessExitedEarly(code)
            },
        },
    }
}

/// The transition relation, total over states and events. Events that do
/// not concern the current state leave the machine unchanged, so feeding a
/// termination request twice is safe.
pub open spec fn spec_supervisor_step(s: Supervisor, e: SupervisorEvent) -> (
    Supervisor,
    SupervisorAction,
    Option<RunOutcome>,
    bool,
) {
    match s.state {
        SupervisorState::Spawning => match e {
            SupervisorEvent::SpawnOk => (
                Supervisor { state: SupervisorState::Running, ..s },
                SupervisorAction::StartPipeline,
                None,
                false,
            ),
            SupervisorEvent::SpawnFail => (
                Supervisor {
                    state: SupervisorState::Terminated,
                    failure: Some(FailureKind::SpawnFailed),
                },
                SupervisorAction::Idle,
                Some(RunOutcome::Failure(FailureKind::SpawnFailed)),
                false,
            ),
            _ => (s, SupervisorAction::Idle, None, false),
        },
        SupervisorState::Running => match e {
            SupervisorEvent::DurationTimer => (
                Supervisor { state: SupervisorState::DrainingOnDuration, ..s },
                SupervisorAction::CloseInputThenKill,
                None,
                false,
            ),
            SupervisorEvent::CancelRequest => (
                Supervisor { state: SupervisorState::DrainingOnCancel, ..s },
                SupervisorAction::CloseInputThenKill,
                None,
                false,
            ),
            SupervisorEvent::SubprocessEnded => (
                Supervisor { state: SupervisorState::DrainingOnExit, ..s },
                SupervisorAction::CloseInputThenWait,
                None,
                false,
            ),
            SupervisorEvent::WriteBrokenPipe => (
                Supervisor {
                    state: SupervisorState::Terminated,
                    failure: Some(FailureKind::BrokenPipe),
                },
                SupervisorAction::Idle,
                Some(RunOutcome::Failure(FailureKind::BrokenPipe)),
                false,
            ),
            SupervisorEvent::CaptureFatal => (
                Supervisor {
                    state: SupervisorState::DrainingOnCancel,
                    failure: Some(FailureKind::CaptureFatal),
                },
                SupervisorAction::CloseInputThenKill,
                None,
                false,
            ),
            _ => (s, SupervisorAction::Idle, None, false),
        },
        SupervisorState::DrainingOnDuration | SupervisorState::DrainingOnCancel
            | SupervisorState::DrainingOnExit => match e {
            SupervisorEvent::ExitStatusReady(code) => (
                Supervisor { state: SupervisorState::Terminated, ..s },
                SupervisorAction::Idle,
                Some(spec_drain_outcome(s, code)),
                code != 0,
            ),
            _ => (s, SupervisorAction::Idle, None, false),
        },
        SupervisorState::Terminated => (s, SupervisorAction::Idle, None, false),
    }
}

impl Supervisor {
    /// A fresh supervisor about to spawn the subprocess.
    pub fn new() -> (r: Supervisor)
        ensures
            r == (Supervisor { state: SupervisorState::Spawning, failure: None }),
    {
        Supervisor { state: SupervisorState::Spawning, failure: None }
    }

    /// Feeds one observed event to the machine and returns what to do.
    pub fn step(&mut self, e: SupervisorEvent) -> (r: (
        SupervisorAction,
        Option<RunOutcome>,
        bool,
    ))
        ensures
            ({
                let (s2, a, o, w) = spec_supervisor_step(*old(self), e);
                &&& *final(self) == s2
                &&& r.0 == a
                &&& r.1 == o
                &&& r.2 == w
            }),
    {
        match self.state {
            SupervisorState::Spawning => match e {
                SupervisorEvent::SpawnOk => {
                    self.state = SupervisorState::Running;
                    (SupervisorAction::StartPipeline, None, false)
                },
                SupervisorEvent::SpawnFail => {
                    self.state = SupervisorState::Terminated;
                    self.failure = Some(FailureKind::SpawnFailed);
                    (
                        SupervisorAction::Idle,
                        Some(RunOutcome::Failure(FailureKind::SpawnFailed)),
                        false,
                    )
                },
                _ => (SupervisorAction::Idle, None, false),
            },
            SupervisorState::Running => match e {
                SupervisorEvent::DurationTimer => {
                    self.state = SupervisorState::DrainingOnDuration;
                    (SupervisorAction::CloseInputThenKill, None, false)
                },
                SupervisorEvent::CancelRequest => {
                    self.state = SupervisorState::DrainingOnCancel;
                    (SupervisorAction::CloseInputThenKill, None, false)
                },
                SupervisorEvent::SubprocessEnded => {
                    self.state = SupervisorState::DrainingOnExit;
                    (SupervisorAction::CloseInputThenWait, None, false)
                },
                SupervisorEvent::WriteBrokenPipe => {
                    self.state = SupervisorState::Terminated;
                    self.failure = Some(FailureKind::BrokenPipe);
                    (SupervisorAction::Idle, Some(RunOutcome::Failure(FailureKind::BrokenPipe)), false)
                },
                SupervisorEvent::CaptureFatal => {
                    self.state = SupervisorState::DrainingOnCancel;
                    self.failure = Some(FailureKind::CaptureFatal);
                    (SupervisorAction::CloseInputThenKill, None, false)
                },
                _ => (SupervisorAction::Idle, None, false),
            },
            SupervisorState::DrainingOnDuration
            | SupervisorState::DrainingOnCancel
            | SupervisorState::DrainingOnExit => match e {
                SupervisorEvent::ExitStatusReady(code) => {
                    let outcome = if let Some(k) = self.failure {
                        RunOutcome::Failure(k)
                    } else {
                        match self.state {
                            SupervisorState::DrainingOnDuration => RunOutcome::DurationElapsed,
                            SupervisorState::DrainingOnCancel => RunOutcome::CancelledExternally,
                            _ => if code == 0 {
                                RunOutcome::NormalCompletion
                            } else {
                                RunOutcome::SubprocessExitedEarly(code)
                            },
                        }
                    };
                    self.state = SupervisorState::Terminated;
                    (SupervisorAction::Idle, Some(outcome), code != 0)
                },
                _ => (SupervisorAction::Idle, None, false),
            },
            SupervisorState::Terminated => (SupervisorAction::Idle, None, false),
        }
    }
}

/// Requesting termination is idempotent: once a drain has started, a
/// second duration or cancellation request changes nothing and demands no
/// action.
pub proof fn lemma_termination_request_idempotent(s: Supervisor, e1: SupervisorEvent, e2: SupervisorEvent)
    requires
        s.state == SupervisorState::Running,
        e1 == SupervisorEvent::DurationTimer || e1 == SupervisorEvent::CancelRequest,
        e2 == SupervisorEvent::DurationTimer || e2 == SupervisorEvent::CancelRequest,
    ensures
        ({
            let (s1, a1, o1, _) = spec_supervisor_step(s, e1);
            let (s2, a2, o2, _) = spec_supervisor_step(s1, e2);
            &&& s2 == s1
            &&& a2 == SupervisorAction::Idle
            &&& o2 is None
        }),
{
}

/// Every path that waits on the subprocess's exit closes its input stream
/// first: a transition out of `Running` into a draining state always
/// carries a close-input action, and an exit status is only resolved from
/// a draining state.
pub proof fn lemma_close_precedes_wait(s: Supervisor, e: SupervisorEvent)
    requires
        s.state == SupervisorState::Running,
    ensures
        ({
            let (s2, a, _, _) = spec_supervisor_step(s, e);
            (s2.state == SupervisorState::DrainingOnDuration || s2.state
                == SupervisorState::DrainingOnCancel || s2.state
                == SupervisorState::DrainingOnExit) ==> (a == SupervisorAction::CloseInputThenKill
                || a == SupervisorAction::CloseInputThenWait)
        }),
{
}

/// A terminated supervisor is absorbing: no event changes it, demands an
/// action, or reports a second outcome.
pub proof fn lemma_terminated_absorbing(s: Supervisor, e: SupervisorEvent)
    requires
        s.state == SupervisorState::Terminated,
    ensures
        spec_supervisor_step(s, e) == (s, SupervisorAction::Idle, None::<RunOutcome>, false),
{
}

/// Exit-status classification: with no pending failure, a zero status
/// resolves to the path's completion outcome, and a nonzero status is
/// reported as completed-with-warning — never escalated to a failure.
pub proof fn lemma_exit_status_classification(s: Supervisor, code: i32)
    requires
        s.failure is None,
        s.state == SupervisorState::DrainingOnDuration || s.state
            == SupervisorState::DrainingOnCancel || s.state == SupervisorState::DrainingOnExit,
    ensures
        ({
            let (s2, _, o, w) = spec_supervisor_step(s, SupervisorEvent::ExitStatusReady(code));
            &&& s2.state == SupervisorState::Terminated
            &&& w == (code != 0)
            &&& o == Some(spec_drain_outcome(s, code))
            &&& !(spec_drain_outcome(s, code) is Failure)
        }),
{
}

} // verus!
