use mic_bridge::error::AppError;
use mic_bridge::supervisor::{
    idle_status, with_gate, EngineSupervisor, StartDecision, StartOutcome, StopDecision,
    SupervisorState, POLL_INTERVAL_MS, STARTUP_TIMEOUT_MS,
};
use mic_bridge::types::{EngineState, GateState, RuntimeStatus};

#[test]
fn start_twice_spawns_no_second_worker() {
    let mut sup = EngineSupervisor::new();
    assert_eq!(sup.state(), SupervisorState::NotStarted);
    assert_eq!(sup.request_start(), StartDecision::Spawn);
    assert!(sup.complete_start(StartOutcome::Started).is_ok());
    assert!(sup.is_running());
    // A second start without an intervening stop is a successful no-op.
    assert_eq!(sup.request_start(), StartDecision::AlreadyRunning);
    assert_eq!(sup.request_start(), StartDecision::AlreadyRunning);
    assert!(sup.is_running());
}

#[test]
fn failed_start_surfaces_the_worker_error() {
    let mut sup = EngineSupervisor::new();
    assert_eq!(sup.request_start(), StartDecision::Spawn);
    let e = sup
        .complete_start(StartOutcome::Failed("no float format".to_string()))
        .unwrap_err();
    match e {
        AppError::Audio(m) => assert_eq!(m, "no float format"),
        other => panic!("expected an audio error, got {other:?}"),
    }
    assert_eq!(sup.state(), SupervisorState::FailedToStart);
    // A failed start can be retried.
    assert_eq!(sup.request_start(), StartDecision::Spawn);
}

#[test]
fn timed_out_start_is_a_system_error() {
    let mut sup = EngineSupervisor::new();
    sup.request_start();
    let e = sup.complete_start(StartOutcome::TimedOut).unwrap_err();
    match e {
        AppError::System(m) => assert_eq!(m, "engine start timed out"),
        other => panic!("expected a system error, got {other:?}"),
    }
}

#[test]
fn stop_joins_only_a_running_worker() {
    let mut sup = EngineSupervisor::new();
    assert_eq!(sup.request_stop(), StopDecision::NotRunning);
    sup.request_start();
    sup.complete_start(StartOutcome::Started).unwrap();
    assert_eq!(sup.request_stop(), StopDecision::SignalAndJoin);
    assert_eq!(sup.state(), SupervisorState::Stopped);
    assert_eq!(sup.request_stop(), StopDecision::NotRunning);
}

#[test]
fn budgets_match_the_lifecycle_contract() {
    assert_eq!(STARTUP_TIMEOUT_MS, 5000);
    assert_eq!(POLL_INTERVAL_MS, 150);
}

#[test]
fn idle_status_reports_a_recorded_error() {
    let gate = GateState::default();
    let s = idle_status(&None, gate);
    assert_eq!(s.engine_state, EngineState::Idle);
    assert_eq!(s.buffer_level_ms, 0);
    assert_eq!(s.xruns, 0);
    let gate = GateState::default();
    let s = idle_status(&Some("device init failed".to_string()), gate);
    assert_eq!(s.engine_state, EngineState::Error);
    assert_eq!(s.last_error.as_deref(), Some("device init failed"));
}

#[test]
fn worker_status_gets_the_fresh_gate_state() {
    let mut snapshot = RuntimeStatus::default();
    snapshot.engine_state = EngineState::Running;
    snapshot.buffer_level_ms = 250;
    snapshot.xruns = 7;
    let mut fresh = GateState::default();
    fresh.is_open = true;
    let s = with_gate(&snapshot, fresh);
    assert_eq!(s.engine_state, EngineState::Running);
    assert_eq!(s.buffer_level_ms, 250);
    assert_eq!(s.xruns, 7);
    assert!(s.gate_state.is_open);
}
