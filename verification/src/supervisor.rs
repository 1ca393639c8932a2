//! The session supervisor's reconnect state machine.
//!
//! The supervisor owns the connection lifecycle: connect, initialize, run
//! until disconnect, tear down, retry. Its decisions are the total step
//! function below; the surrounding application performs each action
//! (opening the transport, sleeping, running the message loop) and feeds
//! the outcome back as the next event.

use vstd::prelude::*;

verus! {

/// The flat interval, in milliseconds, waited between connect attempts.
pub const RETRY_DELAY_MS: u64 = 1000;

/// Lifecycle phase of the single logical connection.
#[derive(Clone, Copy, Debug, PartialEq, Eq, Structural)]
pub enum SessionPhase {
    Disconnected,
    Connecting,
    Initializing,
    Running,
}

/// What last happened to the connection, reported by the application.
#[derive(Clone, Copy, Debug, PartialEq, Eq, Structural)]
pub enum SessionEvent {
    /// The supervisor is awake and should drive the next attempt.
    WakeUp,
    ConnectSucceeded,
    ConnectFailed,
    InitializeDone,
    /// The processing loop ended, by clean close or transport error.
    SessionEnded,
}

/// What the application must do next.
#[derive(Clone, Copy, Debug, PartialEq, Eq, Structural)]
pub enum SupervisorAction {
    /// Attempt to open the transport to the configured endpoint.
    OpenConnection,
    /// Sleep for the fixed backoff interval, then report `WakeUp`.
    WaitRetry { millis: u64 },
    /// Build a fresh session: register handlers, start the monitors.
    InitializeSession,
    /// Enter the dispatcher's message-processing loop.
    ProcessMessages,
    /// Stop the monitors and release the audio collaborators, best-effort.
    TearDown,
    /// The event arrived out of turn; nothing to do.
    Ignore,
}

/// The transition relation of the supervisor. Total: every phase/event
/// pair has a successor, and every successor keeps the loop alive —
/// there is no terminal phase.
pub open spec fn spec_supervisor_step(phase: SessionPhase, event: SessionEvent) -> (
    SessionPhase,
    SupervisorAction,
) {
    match (phase, event) {
        (SessionPhase::Disconnected, SessionEvent::WakeUp) => (
            SessionPhase::Connecting,
            SupervisorAction::OpenConnection,
        ),
        (SessionPhase::Connecting, SessionEvent::ConnectSucceeded) => (
            SessionPhase::Initializing,
            SupervisorAction::InitializeSession,
        ),
        (SessionPhase::Connecting, SessionEvent::ConnectFailed) => (
            SessionPhase::Disconnected,
            SupervisorAction::WaitRetry { millis: RETRY_DELAY_MS },
        ),
        (SessionPhase::Initializing, SessionEvent::InitializeDone) => (
            SessionPhase::Running,
            SupervisorAction::ProcessMessages,
        ),
        (SessionPhase::Running, SessionEvent::SessionEnded) => (
            SessionPhase::Disconnected,
            SupervisorAction::TearDown,
        ),
        (p, _) => (p, SupervisorAction::Ignore),
    }
}

/// One step of the supervisor. Never panics and never reaches a phase
/// from which the loop cannot continue.
pub fn supervisor_step(phase: SessionPhase, event: SessionEvent) -> (r: (
    SessionPhase,
    SupervisorAction,
))
    ensures
        r == spec_supervisor_step(phase, event),
{
    match (phase, event) {
        (SessionPhase::Disconnected, SessionEvent::WakeUp) => (
            SessionPhase::Connecting,
            SupervisorAction::OpenConnection,
        ),
        (SessionPhase::Connecting, SessionEvent::ConnectSucceeded) => (
            SessionPhase::Initializing,
            SupervisorAction::InitializeSession,
        ),
        (SessionPhase::Connecting, SessionEvent::ConnectFailed) => (
            SessionPhase::Disconnected,
            SupervisorAction::WaitRetry { millis: RETRY_DELAY_MS },
        ),
        (SessionPhase::Initializing, SessionEvent::InitializeDone) => (
            SessionPhase::Running,
            SupervisorAction::ProcessMessages,
        ),
        (SessionPhase::Running, SessionEvent::SessionEnded) => (
            SessionPhase::Disconnected,
            SupervisorAction::TearDown,
        ),
        (p, _) => (p, SupervisorAction::Ignore),
    }
}

/// The phase reached after `n` whole failed connect cycles (wake up, try,
/// fail) starting from `Disconnected`.
pub open spec fn spec_phase_after_failures(n: nat) -> SessionPhase
    decreases n,
{
    if n == 0 {
        SessionPhase::Disconnected
    } else {
        spec_supervisor_step(
            spec_supervisor_step(spec_phase_after_failures((n - 1) as nat), SessionEvent::WakeUp).0,
            SessionEvent::ConnectFailed,
        ).0
    }
}

/// However many connect attempts fail in a row, the supervisor keeps
/// retrying: after every failed cycle it stands in `Disconnected` again,
/// the failure's action is always a wait of the same fixed interval, and
/// the following wake-up always opens a new connection attempt.
pub proof fn lemma_retry_forever(n: nat)
    ensures
        spec_phase_after_failures(n) == SessionPhase::Disconnected,
        spec_supervisor_step(
            SessionPhase::Connecting,
            SessionEvent::ConnectFailed,
        ).1 == (SupervisorAction::WaitRetry { millis: RETRY_DELAY_MS }),
        spec_supervisor_step(SessionPhase::Disconnected, SessionEvent::WakeUp).1
            == SupervisorAction::OpenConnection,
    decreases n,
{
    if n > 0 {
        lemma_retry_forever((n - 1) as nat);
    }
}

} // verus!
