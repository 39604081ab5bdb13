use orchestrator_service::domain::audit::{AuditAction, AuditActor, AuditEntry, AuditOutcome};
use orchestrator_service::domain::commands::{CommandAck, OrchestratorCommand};
use orchestrator_service::domain::errors::OrchestratorError;
use orchestrator_service::domain::events::{topic_for, EventId, SystemEvent, TraceId, WorkflowEvent};
use orchestrator_service::domain::health::{HealthSnapshot, HealthStatus, ServiceHealth};
use orchestrator_service::domain::journal::{JournalEntry, JournalKind};
use orchestrator_service::domain::operation_mode::OperationMode;
use orchestrator_service::domain::policy::{ParamValue, PolicyParameters};
use orchestrator_service::domain::saga::{SagaInstance, SagaInstanceState};
use orchestrator_service::domain::service_registry::{ServiceDescriptor, ServiceId, ServiceRegistry};
use orchestrator_service::domain::workflow::{WorkflowInstance, WorkflowInstanceState};
use orchestrator_service::keyed::KeyedVec;

fn all_modes() -> Vec<OperationMode> {
    vec![OperationMode::Live, OperationMode::Paper, OperationMode::Readonly, OperationMode::Offline]
}

#[test]
fn mode_transition_table() {
    let (live, paper, ro, off) =
        (OperationMode::Live, OperationMode::Paper, OperationMode::Readonly, OperationMode::Offline);
    assert!(off.can_transition_to(&paper));
    assert!(off.can_transition_to(&ro));
    assert!(!off.can_transition_to(&live));
    assert!(paper.can_transition_to(&live));
    assert!(paper.can_transition_to(&ro));
    assert!(paper.can_transition_to(&off));
    assert!(live.can_transition_to(&paper));
    assert!(live.can_transition_to(&ro));
    assert!(live.can_transition_to(&off));
    assert!(ro.can_transition_to(&paper));
    assert!(ro.can_transition_to(&off));
    assert!(!ro.can_transition_to(&live));
    for m in all_modes() {
        assert!(!m.can_transition_to(&m));
    }
}

#[test]
fn mode_names_and_parsing() {
    assert_eq!(OperationMode::Live.as_str(), "live");
    assert_eq!(OperationMode::Paper.as_str(), "paper");
    assert_eq!(OperationMode::Readonly.as_str(), "readonly");
    assert_eq!(OperationMode::Offline.as_str(), "offline");
    assert_eq!(OperationMode::parse("LIVE"), Ok(OperationMode::Live));
    assert_eq!(OperationMode::parse("ReadOnly"), Ok(OperationMode::Readonly));
    assert_eq!(OperationMode::parse("bogus"), Err("Unknown operation mode: bogus".to_string()));
    assert_eq!(OperationMode::parse(""), Err("Unknown operation mode: ".to_string()));
}

#[test]
fn mode_name_parses_back() {
    for m in all_modes() {
        assert_eq!(OperationMode::parse(m.as_str()), Ok(m));
    }
}

#[test]
fn health_status_operational() {
    assert!(HealthStatus::Healthy.is_operational());
    assert!(HealthStatus::Degraded.is_operational());
    assert!(!HealthStatus::Unhealthy.is_operational());
    assert!(!HealthStatus::Unknown.is_operational());
}

fn health(id: &str, status: HealthStatus) -> ServiceHealth {
    ServiceHealth {
        service_id: id.to_string(),
        status,
        last_heartbeat_ns: Some(1),
        uptime_secs: None,
        details: None,
    }
}

#[test]
fn unknown_service_health() {
    let h = ServiceHealth::unknown("risk_service");
    assert_eq!(h.service_id, "risk_service");
    assert_eq!(h.status, HealthStatus::Unknown);
    assert_eq!(h.last_heartbeat_ns, None);
    assert_eq!(h.uptime_secs, None);
    assert_eq!(h.details, None);
}

#[test]
fn snapshot_overall_status() {
    let mut s = HealthSnapshot::new();
    assert_eq!(s.overall_status, HealthStatus::Unknown);
    assert_eq!(s.services.len(), 0);
    s.update_service("a".to_string(), health("a", HealthStatus::Healthy));
    assert_eq!(s.overall_status, HealthStatus::Healthy);
    s.update_service("b".to_string(), health("b", HealthStatus::Degraded));
    assert_eq!(s.overall_status, HealthStatus::Degraded);
    s.update_service("c".to_string(), health("c", HealthStatus::Unhealthy));
    assert_eq!(s.overall_status, HealthStatus::Unhealthy);
    s.update_service("c".to_string(), health("c", HealthStatus::Healthy));
    assert_eq!(s.services.len(), 3);
    assert_eq!(s.overall_status, HealthStatus::Degraded);
    s.update_service("b".to_string(), health("b", HealthStatus::Unknown));
    assert_eq!(s.overall_status, HealthStatus::Healthy);
}

#[test]
fn one_unhealthy_service_makes_system_unhealthy() {
    let mut s = HealthSnapshot::new();
    for id in ["a", "b", "c"] {
        s.update_service(id.to_string(), health(id, HealthStatus::Healthy));
    }
    assert_eq!(s.overall_status, HealthStatus::Healthy);
    s.update_service("b".to_string(), health("b", HealthStatus::Unhealthy));
    assert_eq!(s.overall_status, HealthStatus::Unhealthy);
}

#[test]
fn error_messages() {
    let cases = vec![
        (OrchestratorError::Journal("x".into()), "Journal error: x"),
        (OrchestratorError::Bus("x".into()), "Bus error: x"),
        (OrchestratorError::ServiceUnreachable("x".into()), "Service unreachable: x"),
        (OrchestratorError::ServiceTimeout("x".into()), "Service response timeout: x"),
        (OrchestratorError::ServiceRejected("x".into()), "Service rejected command: x"),
        (OrchestratorError::HealthCheckFailed("x".into()), "Health check failed: x"),
        (OrchestratorError::PolicyError("x".into()), "Policy evaluation failed: x"),
        (OrchestratorError::WorkflowError("x".into()), "Workflow error: x"),
        (OrchestratorError::SagaFailed("x".into()), "Saga failed: x"),
        (OrchestratorError::SagaCompensationFailed("x".into()), "Saga compensation failed: x"),
        (
            OrchestratorError::InvalidModeTransition { from: "paper".into(), to: "paper".into() },
            "Invalid operation mode transition: from paper to paper",
        ),
        (OrchestratorError::KillSwitchFailed("x".into()), "Kill switch activation failed: x"),
        (OrchestratorError::ConfigError("x".into()), "Configuration error: x"),
        (OrchestratorError::SerializationError("x".into()), "Serialization error: x"),
        (OrchestratorError::CommandQueueFull, "Already processing command, try again later"),
        (OrchestratorError::ServiceNotRegistered("x".into()), "Service not registered: x"),
        (OrchestratorError::IdempotencyConflict("x".into()), "Idempotency conflict: duplicate request x"),
        (OrchestratorError::CircuitBreakerOpen("x".into()), "Circuit breaker open for service: x"),
        (OrchestratorError::RateLimitExceeded("x".into()), "Rate limit exceeded for service: x"),
        (OrchestratorError::AuthFailed("x".into()), "Authentication failed: x"),
        (OrchestratorError::PermissionDenied("x".into()), "Permission denied: x"),
        (OrchestratorError::Internal("x".into()), "Internal error: x"),
    ];
    for (e, m) in cases {
        assert_eq!(e.message(), m);
    }
}

#[test]
fn fresh_ids_are_hyphenated_uuids() {
    let t = TraceId::new();
    let e = EventId::new();
    assert_eq!(t.0.len(), 36);
    assert_eq!(e.0.len(), 36);
    assert_ne!(t.0, TraceId::new().0);
    assert_eq!(t.0.matches('-').count(), 4);
    let ack = CommandAck::accepted("ok".to_string());
    assert_eq!(ack.command_id.0.len(), 36);
    assert!(ack.accepted);
    assert_eq!(ack.message, "ok");
    assert_eq!(ack.saga_id, None);
}

#[test]
fn event_topics() {
    let ks = SystemEvent::KillSwitchActivated { actor: "a".into(), reason: "r".into() };
    assert_eq!(topic_for(&ks), "system.kill_switch");
    let kc = SystemEvent::KillSwitchCleared { actor: "a".into(), reason: "r".into() };
    assert_eq!(topic_for(&kc), "system.kill_switch");
    let ms = SystemEvent::ModeTransitionStarted { from: OperationMode::Paper, to: OperationMode::Live };
    assert_eq!(topic_for(&ms), "system.mode");
    let mf = SystemEvent::ModeTransitionFailed {
        from: OperationMode::Paper,
        to: OperationMode::Live,
        reason: "x".into(),
    };
    assert_eq!(topic_for(&mf), "system.mode");
    let cb = SystemEvent::CircuitBreakerOpened { service_id: "s".into() };
    assert_eq!(topic_for(&cb), "system.circuit_breaker");
    assert_eq!(topic_for(&SystemEvent::CircuitBreakerClosed { service_id: "s".into() }), "system.circuit_breaker");
    assert_eq!(topic_for(&SystemEvent::PoliciesReloaded), "system.events");
    assert_eq!(topic_for(&SystemEvent::OrchestratorStarted), "system.events");
}

#[test]
fn workflow_event_wrapping() {
    let e = WorkflowEvent::new(SystemEvent::OrchestratorStarted);
    assert!(matches!(e.event, SystemEvent::OrchestratorStarted));
    assert_eq!(e.correlation_id, None);
    assert_eq!(e.event_id.0.len(), 36);
    let id = e.event_id.0.clone();
    let ts = e.timestamp_ns;
    let c = e.with_correlation("corr".to_string());
    assert_eq!(c.correlation_id, Some("corr".to_string()));
    assert_eq!(c.event_id.0, id);
    assert_eq!(c.timestamp_ns, ts);
}

#[test]
fn journal_kinds_and_entries() {
    let kinds = vec![
        (JournalKind::Event, "event"),
        (JournalKind::Command, "command"),
        (JournalKind::Audit, "audit"),
        (JournalKind::ModeTransitionStarted, "mode_transition_started"),
        (JournalKind::ModeTransitionCompleted, "mode_transition_completed"),
        (JournalKind::KillSwitchActivate, "kill_switch_activate"),
        (JournalKind::KillSwitchClear, "kill_switch_clear"),
        (JournalKind::PolicyUpdated, "policy_updated"),
        (JournalKind::PoliciesReloaded, "policies_reloaded"),
        (JournalKind::WorkflowStarted, "workflow_started"),
        (JournalKind::WorkflowStepCompleted, "workflow_step_completed"),
        (JournalKind::SagaStarted, "saga_started"),
        (JournalKind::SagaStepCompleted, "saga_step_completed"),
        (JournalKind::SagaCompleted, "saga_completed"),
        (JournalKind::SagaCompensated, "saga_compensated"),
    ];
    for (k, name) in kinds {
        assert_eq!(k.as_str(), name);
    }
    let e = JournalEntry::new(JournalKind::Audit, 42, "{}".to_string());
    assert_eq!(e.sequence, None);
    assert_eq!(e.timestamp_ns, 42);
    assert_eq!(e.entry_type, "audit");
    assert_eq!(e.payload, "{}");
    assert_eq!(e.checksum, None);
}

#[test]
fn audit_entry_builders() {
    let e = AuditEntry::new(AuditActor::Human { user_id: "u1".into() }, AuditAction::KillSwitchActivated);
    assert_eq!(e.id.len(), 36);
    assert_eq!(e.actor, AuditActor::Human { user_id: "u1".into() });
    assert_eq!(e.action, AuditAction::KillSwitchActivated);
    assert_eq!(e.outcome, AuditOutcome::Success);
    assert_eq!(e.target, None);
    let id = e.id.clone();
    let ts = e.timestamp_ns;
    let e = e
        .with_target("risk_service")
        .with_reason("drill")
        .with_before_state("{\"a\":1}".to_string())
        .with_after_state("{\"a\":2}".to_string())
        .with_trace_id("t-1")
        .with_outcome(AuditOutcome::PartialSuccess);
    assert_eq!(e.id, id);
    assert_eq!(e.timestamp_ns, ts);
    assert_eq!(e.target.as_deref(), Some("risk_service"));
    assert_eq!(e.reason.as_deref(), Some("drill"));
    assert_eq!(e.before_state.as_deref(), Some("{\"a\":1}"));
    assert_eq!(e.after_state.as_deref(), Some("{\"a\":2}"));
    assert_eq!(e.trace_id.as_deref(), Some("t-1"));
    assert_eq!(e.outcome, AuditOutcome::PartialSuccess);
    let c = e.clone();
    assert_eq!(c.id, e.id);
}

fn descriptor(id: &str, name: &str) -> ServiceDescriptor {
    ServiceDescriptor {
        id: ServiceId::new(id),
        name: name.to_string(),
        version: "1.0".to_string(),
        endpoint: None,
        capabilities: vec![],
        metadata: KeyedVec::new(),
    }
}

#[test]
fn service_registry_reads_back_writes() {
    let id = ServiceId::new("risk_service");
    assert_eq!(id.as_str(), "risk_service");
    let mut r = ServiceRegistry::new();
    r.register(descriptor("risk_service", "Risk"));
    r.register(descriptor("model_service", "Model"));
    assert_eq!(r.get("risk_service").unwrap().name, "Risk");
    r.register(descriptor("risk_service", "Risk v2"));
    assert_eq!(r.get("risk_service").unwrap().name, "Risk v2");
    assert_eq!(r.all_ids(), vec!["risk_service", "model_service"]);
    let gone = r.deregister("risk_service").unwrap();
    assert_eq!(gone.name, "Risk v2");
    assert!(r.get("risk_service").is_none());
    assert!(r.deregister("risk_service").is_none());
    assert_eq!(r.all_ids(), vec!["model_service"]);
}

#[test]
fn policy_parameter_reads() {
    let mut p = PolicyParameters::new();
    p.values.insert("max".to_string(), ParamValue::PosInt(300));
    p.values.insert("big".to_string(), ParamValue::PosInt(4_294_967_296 + 7));
    p.values.insert("flag".to_string(), ParamValue::Bool(true));
    p.values.insert("name".to_string(), ParamValue::Str("x".to_string()));
    p.values.insert("neg".to_string(), ParamValue::NegInt(-3));
    assert_eq!(p.get_u32("max"), Some(300));
    assert_eq!(p.get_u32("big"), Some(7));
    assert_eq!(p.get_u32("neg"), None);
    assert_eq!(p.get_u32("flag"), None);
    assert_eq!(p.get_u32("missing"), None);
    assert_eq!(p.get_bool("flag"), Some(true));
    assert_eq!(p.get_bool("max"), None);
    assert_eq!(p.get_string("name"), Some("x".to_string()));
    assert_eq!(p.get_string("max"), None);
}

#[test]
fn saga_instance_steps() {
    let mut s = SagaInstance::new("service_restart");
    assert_eq!(s.saga_type, "service_restart");
    assert_eq!(s.current_step, 0);
    assert_eq!(s.state, SagaInstanceState::Running);
    assert!(s.completed_steps.is_empty());
    assert_eq!(s.instance_id.len(), 36);
    s.advance_step();
    s.advance_step();
    assert_eq!(s.current_step, 2);
    assert_eq!(s.completed_steps, vec![0, 1]);
    s.start_compensation();
    assert_eq!(s.state, SagaInstanceState::Compensating);
    s.compensate_step();
    assert_eq!(s.current_step, 1);
    assert_eq!(s.completed_steps, vec![0]);
}

#[test]
fn compensating_undoes_an_advance() {
    let mut s = SagaInstance::new("t");
    s.advance_step();
    let (step, done) = (s.current_step, s.completed_steps.clone());
    s.advance_step();
    s.compensate_step();
    assert_eq!(s.current_step, step);
    assert_eq!(s.completed_steps, done);
}

#[test]
fn workflow_instance_starts_running() {
    let w = WorkflowInstance::new("wf-1");
    assert_eq!(w.workflow_id, "wf-1");
    assert_eq!(w.current_step, 0);
    assert_eq!(w.state, WorkflowInstanceState::Running);
    assert_eq!(w.started_at_ns, w.updated_at_ns);
    assert_eq!(w.instance_id.len(), 36);
}

#[test]
fn command_variants_build() {
    let c = OrchestratorCommand::ConfigureRateLimiter {
        service_id: "s".into(),
        max_requests_per_min: 10,
        burst_capacity: 2,
    };
    assert!(matches!(c, OrchestratorCommand::ConfigureRateLimiter { max_requests_per_min: 10, .. }));
}


#[test]
fn mode_from_str() {
    assert_eq!("paper".parse::<OperationMode>(), Ok(OperationMode::Paper));
    assert_eq!("Offline".parse::<OperationMode>(), Ok(OperationMode::Offline));
    assert_eq!("x".parse::<OperationMode>(), Err("Unknown operation mode: x".to_string()));
}
