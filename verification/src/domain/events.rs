use vstd::prelude::*;
use crate::domain::health::ServiceHealth;
use crate::domain::operation_mode::OperationMode;
use crate::time_source::{new_uuid_string, now_nanos};

verus! {

/// Identifies one end-to-end request across services.
#[derive(Debug, Clone)]
pub struct TraceId(pub String);

impl TraceId {
    /// A fresh random trace id (a hyphenated UUID).
    pub fn new() -> (r: Self)
        ensures
            r.0@.len() == 36,
    {
        TraceId(new_uuid_string())
    }
}

/// Identifies one journalled event (a hyphenated UUID).
#[derive(Debug, Clone)]
pub struct EventId(pub String);

impl EventId {
    /// A fresh random event id.
    pub fn new() -> (r: Self)
        ensures
            r.0@.len() == 36,
    {
        EventId(new_uuid_string())
    }
}

/// Everything that happens in the system and is journalled or published.
/// JSON documents (`metadata`) are held as their text.
#[derive(Debug, Clone)]
pub enum SystemEvent {
    ServiceHealthChanged { service_id: String, health: ServiceHealth },
    ServiceRegistered { service_id: String, metadata: String },
    ServiceDeregistered { service_id: String },
    KillSwitchActivated { actor: String, reason: String },
    KillSwitchCleared { actor: String, reason: String },
    ModeTransitionStarted { from: OperationMode, to: OperationMode },
    ModeTransitionCompleted { from: OperationMode, to: OperationMode },
    ModeTransitionFailed { from: OperationMode, to: OperationMode, reason: String },
    PolicyUpdated { policy_id: String },
    PoliciesReloaded,
    WorkflowStarted { workflow_id: String, instance_id: String },
    WorkflowStepCompleted { instance_id: String, step_index: usize },
    WorkflowCompleted { instance_id: String },
    WorkflowFailed { instance_id: String, reason: String },
    SagaStarted { saga_id: String, saga_type: String },
    SagaStepCompleted { saga_id: String, step_index: usize },
    SagaStepFailed { saga_id: String, step_index: usize, reason: String },
    SagaCompensated { saga_id: String, compensated_steps: Vec<usize> },
    SagaCompleted { saga_id: String },
    CircuitBreakerOpened { service_id: String },
    CircuitBreakerClosed { service_id: String },
    OrchestratorStarted,
    OrchestratorRestarted,
}

/// The bus topic on which an event is published.
pub open spec fn topic_spec(e: SystemEvent) -> Seq<char> {
    match e {
        SystemEvent::KillSwitchActivated { .. } | SystemEvent::KillSwitchCleared { .. } =>
            "system.kill_switch"@,
        SystemEvent::ModeTransitionStarted { .. }
        | SystemEvent::ModeTransitionCompleted { .. }
        | SystemEvent::ModeTransitionFailed { .. } => "system.mode"@,
        SystemEvent::CircuitBreakerOpened { .. } | SystemEvent::CircuitBreakerClosed { .. } =>
            "system.circuit_breaker"@,
        _ => "system.events"@,
    }
}

/// The bus topic on which `event` is routed: kill-switch, mode and
/// circuit-breaker events have topics of their own, the rest go to
/// `system.events`.
pub fn topic_for(event: &SystemEvent) -> (t: &'static str)
    ensures
        t@ == topic_spec(*event),
{
    match event {
        SystemEvent::KillSwitchActivated { .. } | SystemEvent::KillSwitchCleared { .. } =>
            "system.kill_switch",
        SystemEvent::ModeTransitionStarted { .. }
        | SystemEvent::ModeTransitionCompleted { .. }
        | SystemEvent::ModeTransitionFailed { .. } => "system.mode",
        SystemEvent::CircuitBreakerOpened { .. } | SystemEvent::CircuitBreakerClosed { .. } =>
            "system.circuit_breaker",
        _ => "system.events",
    }
}

/// An event with the id and time under which it is journalled.
#[derive(Debug, Clone)]
pub struct WorkflowEvent {
    pub event_id: EventId,
    pub timestamp_ns: u64,
    pub event: SystemEvent,
    pub correlation_id: Option<String>,
}

impl WorkflowEvent {
    /// Wraps `event` with a fresh id and the current time, uncorrelated.
    pub fn new(event: SystemEvent) -> (r: Self)
        ensures
            r.event == event,
            r.correlation_id is None,
            r.event_id.0@.len() == 36,
    {
        WorkflowEvent {
            event_id: EventId::new(),
            timestamp_ns: now_nanos(),
            event,
            correlation_id: None,
        }
    }

    /// The same event, correlated with `id`.
    pub fn with_correlation(self, id: String) -> (r: Self)
        ensures
            r.event_id == self.event_id,
            r.timestamp_ns == self.timestamp_ns,
            r.event == self.event,
            r.correlation_id == Some(id),
    {
        WorkflowEvent { correlation_id: Some(id), ..self }
    }
}

/// Each kind of event has its topic: kill-switch events on
/// `system.kill_switch`, every mode-transition event (started, completed or
/// failed) on `system.mode`, breaker events on `system.circuit_breaker`,
/// and saga, workflow, health, policy and service events on
/// `system.events`.
pub proof fn law_topic_of_each_kind(e: SystemEvent)
    ensures
        (e is KillSwitchActivated || e is KillSwitchCleared) ==> topic_spec(e) == "system.kill_switch"@,
        (e is ModeTransitionStarted || e is ModeTransitionCompleted || e is ModeTransitionFailed)
            ==> topic_spec(e) == "system.mode"@,
        (e is CircuitBreakerOpened || e is CircuitBreakerClosed) ==> topic_spec(e)
            == "system.circuit_breaker"@,
        (e is SagaStarted || e is SagaStepCompleted || e is SagaCompensated || e is SagaCompleted)
            ==> topic_spec(e) == "system.events"@,
{
}

} // verus!
