use xiaoai_client::supervisor::{
    supervisor_step, SessionEvent, SessionPhase, SupervisorAction, RETRY_DELAY_MS,
};

#[test]
fn connect_failure_waits_the_fixed_interval() {
    let (phase, action) = supervisor_step(SessionPhase::Connecting, SessionEvent::ConnectFailed);
    assert_eq!(phase, SessionPhase::Disconnected);
    assert_eq!(action, SupervisorAction::WaitRetry { millis: RETRY_DELAY_MS });
    assert_eq!(RETRY_DELAY_MS, 1000);
}

#[test]
fn wake_up_opens_a_connection() {
    let (phase, action) = supervisor_step(SessionPhase::Disconnected, SessionEvent::WakeUp);
    assert_eq!(phase, SessionPhase::Connecting);
    assert_eq!(action, SupervisorAction::OpenConnection);
}

#[test]
fn successful_connect_initializes_a_fresh_session() {
    let (phase, action) =
        supervisor_step(SessionPhase::Connecting, SessionEvent::ConnectSucceeded);
    assert_eq!(phase, SessionPhase::Initializing);
    assert_eq!(action, SupervisorAction::InitializeSession);
}

#[test]
fn initialized_session_processes_messages() {
    let (phase, action) =
        supervisor_step(SessionPhase::Initializing, SessionEvent::InitializeDone);
    assert_eq!(phase, SessionPhase::Running);
    assert_eq!(action, SupervisorAction::ProcessMessages);
}

#[test]
fn disconnect_tears_down_and_loops() {
    let (phase, action) = supervisor_step(SessionPhase::Running, SessionEvent::SessionEnded);
    assert_eq!(phase, SessionPhase::Disconnected);
    assert_eq!(action, SupervisorAction::TearDown);
}

#[test]
fn out_of_turn_events_are_ignored() {
    let (phase, action) = supervisor_step(SessionPhase::Running, SessionEvent::ConnectFailed);
    assert_eq!(phase, SessionPhase::Running);
    assert_eq!(action, SupervisorAction::Ignore);
}

#[test]
fn repeated_failures_keep_retrying_forever() {
    let mut phase = SessionPhase::Disconnected;
    for _ in 0..1000 {
        let (next, action) = supervisor_step(phase, SessionEvent::WakeUp);
        assert_eq!(action, SupervisorAction::OpenConnection);
        let (next, action) = supervisor_step(next, SessionEvent::ConnectFailed);
        assert_eq!(next, SessionPhase::Disconnected);
        assert_eq!(action, SupervisorAction::WaitRetry { millis: RETRY_DELAY_MS });
        phase = next;
    }
    assert_eq!(phase, SessionPhase::Disconnected);
}
