use vstd::prelude::*;
use vstd::string::*;

use crate::error::AppError;
use crate::types::{EngineState, GateState, RuntimeStatus};

verus! {

/// The startup handshake budget: the caller waits this long for the worker
/// to report before treating the start as timed out.
pub const STARTUP_TIMEOUT_MS: u64 = 5000;

/// How long the worker sleeps between status refreshes, waking early on a
/// stop signal.
pub const POLL_INTERVAL_MS: u64 = 150;

/// Where the engine lifecycle stands.
#[derive(Clone, Copy, Debug, PartialEq, Eq, Structural)]
pub enum SupervisorState {
    NotStarted,
    Starting,
    Running,
    FailedToStart,
    Stopped,
}

/// What a start request asks the embedding program to do.
#[derive(Clone, Copy, Debug, PartialEq, Eq, Structural)]
pub enum StartDecision {
    /// The engine already runs: do nothing and report success.
    AlreadyRunning,
    /// Spawn the worker and run the startup handshake.
    Spawn,
}

/// What a stop request asks the embedding program to do.
#[derive(Clone, Copy, Debug, PartialEq, Eq, Structural)]
pub enum StopDecision {
    /// Signal the worker and join it before returning.
    SignalAndJoin,
    /// Nothing runs: do nothing.
    NotRunning,
}

/// How the startup handshake ended, as reported within the budget.
#[derive(Clone, Debug)]
pub enum StartOutcome {
    /// The worker brought the bridge up.
    Started,
    /// The worker failed, with its error text.
    Failed(String),
    /// No report arrived within the budget.
    TimedOut,
}

/// The state and decision after one start request: a running engine makes
/// the request a no-op, anything else moves to `Starting` and spawns.
pub open spec fn spec_request_start(s: SupervisorState) -> (SupervisorState, StartDecision) {
    if s == SupervisorState::Running {
        (SupervisorState::Running, StartDecision::AlreadyRunning)
    } else {
        (SupervisorState::Starting, StartDecision::Spawn)
    }
}

/// The state after the startup handshake: a report of success runs, any
/// failure or a timeout fails the start.
pub open spec fn spec_complete_start(outcome: StartOutcome) -> SupervisorState {
    match outcome {
        StartOutcome::Started => SupervisorState::Running,
        StartOutcome::Failed(_) => SupervisorState::FailedToStart,
        StartOutcome::TimedOut => SupervisorState::FailedToStart,
    }
}

/// The state and decision after one stop request: only a running engine
/// has a worker to signal and join.
pub open spec fn spec_request_stop(s: SupervisorState) -> (SupervisorState, StopDecision) {
    if s == SupervisorState::Running {
        (SupervisorState::Stopped, StopDecision::SignalAndJoin)
    } else {
        (s, StopDecision::NotRunning)
    }
}

/// Law: a start request against a running engine changes nothing, and so
/// does a second one right after it: two starts in a row spawn no second
/// worker and both report success.
pub proof fn lemma_start_idempotent_when_running()
    ensures
        ({
            let (s1, d1) = spec_request_start(SupervisorState::Running);
            let (s2, d2) = spec_request_start(s1);
            s1 == SupervisorState::Running && d1 == StartDecision::AlreadyRunning && s2
                == SupervisorState::Running && d2 == StartDecision::AlreadyRunning
        }),
{
}

/// The engine lifecycle supervisor: it decides what each start and stop
/// request does, while the embedding program carries the decisions out
/// (spawning, the bounded handshake, signalling and joining).
#[derive(Debug)]
pub struct EngineSupervisor {
    state: SupervisorState,
}

impl EngineSupervisor {
    /// The current lifecycle state.
    pub closed spec fn spec_state(&self) -> SupervisorState {
        self.state
    }

    /// A supervisor that has never started an engine.
    pub fn new() -> (r: Self)
        ensures
            r.spec_state() == SupervisorState::NotStarted,
    {
        EngineSupervisor { state: SupervisorState::NotStarted }
    }

    /// The current lifecycle state, as a run-time value.
    pub fn state(&self) -> (r: SupervisorState)
        ensures
            r == self.spec_state(),
    {
        self.state
    }

    /// Whether a bridge is currently running.
    pub fn is_running(&self) -> (r: bool)
        ensures
            r == (self.spec_state() == SupervisorState::Running),
    {
        match self.state {
            SupervisorState::Running => true,
            _ => false,
        }
    }

    /// Takes one start request: a running engine makes it a no-op reported
    /// as success; otherwise the caller must spawn the worker and then
    /// settle the handshake through `complete_start`.
    pub fn request_start(&mut self) -> (d: StartDecision)
        ensures
            (final(self).spec_state(), d) == spec_request_start(old(self).spec_state()),
    {
        if self.is_running() {
            StartDecision::AlreadyRunning
        } else {
            self.state = SupervisorState::Starting;
            StartDecision::Spawn
        }
    }

    /// Settles the startup handshake: success runs the engine; a worker
    /// failure surfaces as an audio error carrying the worker's text; a
    /// timeout surfaces as a system error, after the caller has signalled
    /// and joined the worker, so that no thread leaks.
    pub fn complete_start(&mut self, outcome: StartOutcome) -> (r: Result<(), AppError>)
        requires
            old(self).spec_state() == SupervisorState::Starting,
        ensures
            final(self).spec_state() == spec_complete_start(outcome),
            match outcome {
                StartOutcome::Started => r is Ok,
                StartOutcome::Failed(msg) => r matches Err(AppError::Audio(m)) && m@ == msg@,
                StartOutcome::TimedOut => r matches Err(AppError::System(m)) && m@
                    == "engine start timed out"@,
            },
    {
        match outcome {
            StartOutcome::Started => {
                self.state = SupervisorState::Running;
                Ok(())
            },
            StartOutcome::Failed(msg) => {
                self.state = SupervisorState::FailedToStart;
                Err(AppError::Audio(msg))
            },
            StartOutcome::TimedOut => {
                self.state = SupervisorState::FailedToStart;
                Err(AppError::System(String::from_str("engine start timed out")))
            },
        }
    }

    /// Takes one stop request: only a running engine has a worker to
    /// signal and join; the stop is synchronous for the caller.
    pub fn request_stop(&mut self) -> (d: StopDecision)
        ensures
            (final(self).spec_state(), d) == spec_request_stop(old(self).spec_state()),
    {
        if self.is_running() {
            self.state = SupervisorState::Stopped;
            StopDecision::SignalAndJoin
        } else {
            StopDecision::NotRunning
        }
    }
}

/// The status reported while no bridge runs: idle, or error when a failure
/// was recorded, with empty counters and the current gate snapshot.
pub fn idle_status(last_error: &Option<String>, gate_state: GateState) -> (r: RuntimeStatus)
    ensures
        r.engine_state == (if last_error is Some {
            EngineState::Error
        } else {
            EngineState::Idle
        }),
        r.buffer_level_ms == 0,
        r.xruns == 0,
        match (r.last_error, last_error) {
            (Some(a), Some(b)) => a@ == b@,
            (None, None) => true,
            _ => false,
        },
        r.gate_state == gate_state,
{
    let (engine_state, last) = match last_error {
        Some(m) => (EngineState::Error, Some(m.clone())),
        None => (EngineState::Idle, None),
    };
    RuntimeStatus {
        engine_state,
        buffer_level_ms: 0,
        xruns: 0,
        last_error: last,
        gate_state,
    }
}

/// A worker status snapshot handed out with the freshest gate state put in:
/// everything else is reported as the polling loop last recorded it.
pub fn with_gate(snapshot: &RuntimeStatus, gate_state: GateState) -> (r: RuntimeStatus)
    ensures
        r.engine_state == snapshot.engine_state,
        r.buffer_level_ms == snapshot.buffer_level_ms,
        r.xruns == snapshot.xruns,
        match (r.last_error, snapshot.last_error) {
            (Some(a), Some(b)) => a@ == b@,
            (None, None) => true,
            _ => false,
        },
        r.gate_state == gate_state,
{
    let last = match &snapshot.last_error {
        Some(m) => Some(m.clone()),
        None => None,
    };
    RuntimeStatus {
        engine_state: snapshot.engine_state,
        buffer_level_ms: snapshot.buffer_level_ms,
        xruns: snapshot.xruns,
        last_error: last,
        gate_state,
    }
}

} // verus!
