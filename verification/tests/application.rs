use orchestrator_service::application::audit_trail::{audit_journal_entry, audit_records, entries_in_range};
use orchestrator_service::application::command_handler::process_command;
use orchestrator_service::application::event_router::route;
use orchestrator_service::application::health_aggregator::apply_health_poll;
use orchestrator_service::application::kill_switch_controller::{cancel_all_command, cancel_targets, KillSwitchController};
use orchestrator_service::application::leader_election::{
    is_stale_lock, lock_content, LeaderElection, LeaderState, LockStep,
};
use orchestrator_service::application::mode_controller::{ModeController, TransitionPlan};
use orchestrator_service::application::named_sagas::register_all_named_sagas;
use orchestrator_service::application::policy_engine::PolicyEngine;
use orchestrator_service::application::query_handler::{
    kill_switch_label, no_health_message, service_health, status_label, system_health,
};
use orchestrator_service::application::saga_coordinator::SagaCoordinator;
use orchestrator_service::application::workflow_engine::WorkflowEngine;
use orchestrator_service::domain::audit::{AuditAction, AuditActor, AuditEntry};
use orchestrator_service::domain::commands::OrchestratorCommand;
use orchestrator_service::domain::errors::OrchestratorError;
use orchestrator_service::domain::events::{SystemEvent, WorkflowEvent};
use orchestrator_service::domain::health::{HealthSnapshot, HealthStatus, ServiceHealth};
use orchestrator_service::domain::journal::{DecodedEntry, JournalEntry, JournalKind};
use orchestrator_service::domain::operation_mode::OperationMode;
use orchestrator_service::domain::policy::{ParamValue, PolicyParameters};
use orchestrator_service::domain::saga::SagaInstanceState;
use orchestrator_service::domain::workflow::{send_command, WorkflowDefinition, WorkflowInstanceState, WorkflowStepDef};
use orchestrator_service::keyed::KeyedVec;

fn completed_entry(from: OperationMode, to: OperationMode) -> DecodedEntry {
    DecodedEntry {
        entry_type: JournalKind::ModeTransitionCompleted.as_str().to_string(),
        event: Some(WorkflowEvent::new(SystemEvent::ModeTransitionCompleted { from, to })),
    }
}

#[test]
fn mode_controller_refuses_disallowed_change() {
    let c = ModeController::new();
    assert_eq!(c.current_mode(), OperationMode::Paper);
    match c.plan_transition(OperationMode::Paper, false) {
        Err(OrchestratorError::InvalidModeTransition { from, to }) => {
            assert_eq!(from, "paper");
            assert_eq!(to, "paper");
        }
        _ => panic!("expected a refusal"),
    }
}

#[test]
fn mode_controller_dry_run_changes_nothing() {
    let c = ModeController::new();
    match c.plan_transition(OperationMode::Live, true) {
        Ok(TransitionPlan::DryRun(ack)) => {
            assert!(ack.accepted);
            assert_eq!(ack.message, "Dry run: would transition from paper to live");
        }
        _ => panic!("expected a dry run"),
    }
    assert_eq!(c.current_mode(), OperationMode::Paper);
    assert!(c.history().is_empty());
}

#[test]
fn mode_controller_commits_and_records() {
    let mut c = ModeController::new();
    match c.plan_transition(OperationMode::Live, false) {
        Ok(TransitionPlan::Proceed(SystemEvent::ModeTransitionStarted { from, to })) => {
            assert_eq!(from, OperationMode::Paper);
            assert_eq!(to, OperationMode::Live);
        }
        _ => panic!("expected to proceed"),
    }
    let (event, ack) = c.commit_transition(OperationMode::Live, "go live", "ops");
    assert!(matches!(
        event,
        SystemEvent::ModeTransitionCompleted { from: OperationMode::Paper, to: OperationMode::Live }
    ));
    assert_eq!(ack.message, "Mode transitioned from paper to live");
    assert_eq!(c.current_mode(), OperationMode::Live);
    let h = c.history();
    assert_eq!(h.len(), 1);
    assert_eq!(h[0].from, OperationMode::Paper);
    assert_eq!(h[0].to, OperationMode::Live);
    assert_eq!(h[0].actor, "ops");
    assert_eq!(h[0].reason, "go live");
    assert!(h[0].success);
}

#[test]
fn mode_restored_from_latest_completed_transition() {
    let mut c = ModeController::new();
    let j = vec![
        completed_entry(OperationMode::Paper, OperationMode::Live),
        DecodedEntry { entry_type: "event".to_string(), event: None },
        completed_entry(OperationMode::Live, OperationMode::Readonly),
        DecodedEntry {
            entry_type: JournalKind::ModeTransitionStarted.as_str().to_string(),
            event: Some(WorkflowEvent::new(SystemEvent::ModeTransitionStarted {
                from: OperationMode::Readonly,
                to: OperationMode::Offline,
            })),
        },
    ];
    c.restore_from_journal(&j);
    assert_eq!(c.current_mode(), OperationMode::Readonly);
    let mut d = ModeController::new();
    d.restore_from_journal(&vec![]);
    assert_eq!(d.current_mode(), OperationMode::Paper);
}

#[test]
fn kill_switch_activation_and_clearing() {
    let mut k = KillSwitchController::new();
    assert!(!k.is_active());
    let (e, ack) = k.activate("drill", "ops");
    assert!(k.is_active());
    assert!(matches!(e, SystemEvent::KillSwitchActivated { .. }));
    assert_eq!(ack.message, "Kill switch activated: drill");
    let (e, ack) = k.clear("done", "ops");
    assert!(!k.is_active());
    assert!(matches!(e, SystemEvent::KillSwitchCleared { .. }));
    assert_eq!(ack.message, "Kill switch cleared: done");
    assert_eq!(cancel_targets(), vec!["execution_service", "broker_gateway"]);
    let c = cancel_all_command("{\"reason\":\"drill\"}".to_string());
    assert_eq!(c.command_type, "cancel_all_orders");
    assert_eq!(c.timeout_secs, Some(5));
}

#[test]
fn kill_switch_restore_reads_latest_switch_entry() {
    let types = |v: &[&str]| v.iter().map(|s| s.to_string()).collect::<Vec<String>>();
    let mut k = KillSwitchController::new();
    k.restore_from_journal(&types(&["kill_switch_clear", "kill_switch_activate", "event", "audit"]));
    assert!(k.is_active());
    k.restore_from_journal(&types(&["kill_switch_activate", "kill_switch_clear"]));
    assert!(!k.is_active());
    let mut k2 = KillSwitchController::new();
    k2.activate("x", "y");
    k2.restore_from_journal(&types(&["event", "saga_started"]));
    assert!(k2.is_active());
}

fn params(pairs: &[(&str, u64)]) -> PolicyParameters {
    let mut p = PolicyParameters::new();
    for (k, v) in pairs {
        p.values.insert(k.to_string(), ParamValue::PosInt(*v));
    }
    p
}

#[test]
fn policy_read_after_update() {
    let mut e = PolicyEngine::new();
    assert!(e.get_policy("drawdown").is_none());
    let ev = e.update_policy("drawdown", params(&[("limit", 5)]));
    assert!(matches!(ev, SystemEvent::PolicyUpdated { ref policy_id } if policy_id == "drawdown"));
    let s = e.get_policy("drawdown").unwrap();
    assert_eq!(s.policy_id, "drawdown");
    assert!(s.enabled);
    assert_eq!(s.parameters.get_u32("limit"), Some(5));
    e.update_policy("drawdown", params(&[("limit", 7)]));
    assert_eq!(e.get_policy("drawdown").unwrap().parameters.get_u32("limit"), Some(7));
    assert_eq!(e.list_policies().len(), 1);
}

#[test]
fn policy_reload_sets_each() {
    let mut e = PolicyEngine::new();
    e.update_policy("keep", params(&[("a", 1)]));
    let mut all = KeyedVec::new();
    all.insert("rate_limit".to_string(), params(&[("global_max_orders_per_min", 100)]));
    all.insert("keep".to_string(), params(&[("a", 2)]));
    let ev = e.reload_policies(&all);
    assert!(matches!(ev, SystemEvent::PoliciesReloaded));
    let list = e.list_policies();
    assert_eq!(list.len(), 2);
    assert!(list.iter().all(|p| p.enabled));
    assert_eq!(e.get_policy("keep").unwrap().parameters.get_u32("a"), Some(2));
    assert_eq!(e.get_policy("rate_limit").unwrap().parameters.get_u32("global_max_orders_per_min"), Some(100));
}

#[test]
fn named_sagas_are_registered() {
    let mut c = SagaCoordinator::new();
    register_all_named_sagas(&mut c);
    for t in ["operation_mode_transition", "kill_switch_activation", "service_restart", "policy_update", "circuit_breaker_open"] {
        let inst = c.start_saga(t).unwrap();
        assert_eq!(inst.saga_type, t);
        assert_eq!(inst.current_step, 0);
    }
    match c.start_saga("nope") {
        Err(OrchestratorError::SagaFailed(m)) => assert_eq!(m, "Saga definition not found: nope"),
        _ => panic!("expected failure"),
    }
}

#[test]
fn saga_runs_to_completion() {
    let mut c = SagaCoordinator::new();
    register_all_named_sagas(&mut c);
    let inst = c.start_saga("service_restart").unwrap();
    let id = inst.instance_id.clone();
    match SagaCoordinator::started_event(&inst) {
        SystemEvent::SagaStarted { saga_id, saga_type } => {
            assert_eq!(saga_id, id);
            assert_eq!(saga_type, "service_restart");
        }
        _ => panic!(),
    }
    c.insert_instance(inst);
    let total = c.list_instances()[0].total_steps;
    assert!(total > 0);
    for step in 1..=total {
        match c.advance_saga(&id) {
            Ok(SystemEvent::SagaStepCompleted { step_index, .. }) => assert_eq!(step_index, step),
            _ => panic!("expected a step"),
        }
    }
    assert!(matches!(c.advance_saga(&id), Ok(SystemEvent::SagaCompleted { .. })));
    let got = c.get_instance(&id).unwrap();
    assert_eq!(got.state, SagaInstanceState::Completed);
    assert_eq!(got.completed_steps.len(), total);
    match c.advance_saga("missing") {
        Err(OrchestratorError::SagaFailed(m)) => assert_eq!(m, "Saga not found: missing"),
        _ => panic!(),
    }
}

#[test]
fn saga_compensation_undoes_steps_newest_first() {
    let mut c = SagaCoordinator::new();
    register_all_named_sagas(&mut c);
    let inst = c.start_saga("policy_update").unwrap();
    let id = inst.instance_id.clone();
    c.insert_instance(inst);
    c.advance_saga(&id).unwrap();
    c.advance_saga(&id).unwrap();
    c.advance_saga(&id).unwrap();
    match c.compensate_saga(&id) {
        Ok(SystemEvent::SagaCompensated { compensated_steps, .. }) => assert_eq!(compensated_steps, vec![2, 1, 0]),
        _ => panic!(),
    }
    let got = c.get_instance(&id).unwrap();
    assert_eq!(got.state, SagaInstanceState::Compensating);
    assert!(got.completed_steps.is_empty());
    assert_eq!(got.current_step, 0);
}

#[test]
fn saga_replay_follows_advance() {
    let mut live = SagaCoordinator::new();
    register_all_named_sagas(&mut live);
    let inst = live.start_saga("kill_switch_activation").unwrap();
    let id = inst.instance_id.clone();
    let mut journal = vec![WorkflowEvent::new(SagaCoordinator::started_event(&inst))];
    live.insert_instance(inst);
    journal.push(WorkflowEvent::new(live.advance_saga(&id).unwrap()));
    journal.push(WorkflowEvent::new(live.advance_saga(&id).unwrap()));
    let mut restored = SagaCoordinator::new();
    restored.restore_from_journal(&journal);
    let a = live.get_instance(&id).unwrap();
    let b = restored.get_instance(&id).unwrap();
    assert_eq!(a.current_step, b.current_step);
    assert_eq!(a.completed_steps, b.completed_steps);
    assert_eq!(a.state, b.state);
    assert_eq!(b.current_step, 2);
    assert_eq!(b.completed_steps, vec![0, 1]);
}

fn workflow(id: &str, n: usize) -> WorkflowDefinition {
    let mut steps = Vec::new();
    for i in 0..n {
        steps.push(WorkflowStepDef {
            name: format!("s{}", i),
            action: send_command("svc", "{}"),
            compensation: None,
            timeout_secs: None,
        });
    }
    WorkflowDefinition { id: id.to_string(), name: id.to_string(), version: 1, steps }
}

#[test]
fn workflow_runs_to_completion() {
    let mut w = WorkflowEngine::new();
    match w.trigger_workflow("wf") {
        Err(OrchestratorError::WorkflowError(m)) => assert_eq!(m, "Workflow not found: wf"),
        _ => panic!(),
    }
    w.register_workflow(workflow("wf", 2));
    let inst = w.trigger_workflow("wf").unwrap();
    let id = inst.instance_id.clone();
    assert!(matches!(WorkflowEngine::started_event(&inst), SystemEvent::WorkflowStarted { .. }));
    w.insert_instance(inst);
    assert!(matches!(w.advance_workflow(&id), Ok(Some(SystemEvent::WorkflowStepCompleted { step_index: 1, .. }))));
    assert!(matches!(w.advance_workflow(&id), Ok(Some(SystemEvent::WorkflowStepCompleted { step_index: 2, .. }))));
    assert!(matches!(w.advance_workflow(&id), Ok(None)));
    assert_eq!(w.get_instance(&id).unwrap().state, WorkflowInstanceState::Completed);
    let l = w.list_instances();
    assert_eq!(l.len(), 1);
    assert_eq!(l[0].total_steps, 2);
    match w.advance_workflow("nope") {
        Err(OrchestratorError::WorkflowError(m)) => assert_eq!(m, "Instance not found: nope"),
        _ => panic!(),
    }
}

#[test]
fn commands_are_journalled_as_events() {
    let (e, ack) = process_command(&OrchestratorCommand::ActivateKillSwitch { reason: "r".into(), actor: "a".into() });
    assert!(matches!(e.event, SystemEvent::KillSwitchActivated { .. }));
    assert_eq!(ack.message, "Command accepted");
    let (e, _) = process_command(&OrchestratorCommand::TransitionMode {
        target_mode: OperationMode::Live,
        reason: "r".into(),
        dry_run: false,
    });
    assert!(matches!(e.event, SystemEvent::ModeTransitionStarted { from: OperationMode::Paper, to: OperationMode::Live }));
    let (e, _) = process_command(&OrchestratorCommand::PauseService { service_id: "s".into(), reason: "r".into() });
    assert!(matches!(e.event, SystemEvent::ServiceDeregistered { .. }));
    let (e, _) = process_command(&OrchestratorCommand::ResumeService { service_id: "s".into(), reason: "r".into() });
    match e.event {
        SystemEvent::ServiceRegistered { service_id, metadata } => {
            assert_eq!(service_id, "s");
            assert_eq!(metadata, "{}");
        }
        _ => panic!(),
    }
    let (e, _) = process_command(&OrchestratorCommand::ReloadPolicies);
    assert!(matches!(e.event, SystemEvent::PoliciesReloaded));
    let (e, _) = process_command(&OrchestratorCommand::CancelWorkflow { instance_id: "i".into() });
    assert!(matches!(e.event, SystemEvent::OrchestratorStarted));
}

#[test]
fn lock_text_and_staleness() {
    assert_eq!(lock_content("node-1", 1_700_000_000), "node-1\n1700000000\n");
    assert_eq!(lock_content("n", 0), "n\n0\n");
    assert!(!is_stale_lock("n\n100\n", 130));
    assert!(is_stale_lock("n\n100\n", 131));
    assert!(is_stale_lock("n\r\n100\r\n", 200));
    assert!(!is_stale_lock("n\nabc\n", 200));
    assert!(!is_stale_lock("n", 200));
    assert!(!is_stale_lock("", 200));
}

#[test]
fn lock_written_is_read_back() {
    let text = lock_content("node-7", 12345);
    assert!(!is_stale_lock(&text, 12345));
    assert!(!is_stale_lock(&text, 12375));
    assert!(is_stale_lock(&text, 12376));
}

#[test]
fn leader_election_steps() {
    let mut l = LeaderElection::new("node-1");
    assert_eq!(l.state(), LeaderState::Standby);
    assert!(l.heartbeat_content(5).is_none());
    assert!(l.on_lock_created());
    assert!(l.is_leader());
    assert_eq!(l.heartbeat_content(5), Some("node-1\n5\n".to_string()));
    assert_eq!(l.lock_content(9), "node-1\n9\n");
    l.release();
    assert!(!l.is_leader());
    assert_eq!(l.on_lock_held(Some("other\n100\n"), 200), LockStep::Retry);
    assert_eq!(l.on_lock_held(Some("other\n100\n"), 110), LockStep::Standby);
    assert_eq!(l.on_lock_held(None, 110), LockStep::Standby);
    assert_eq!(l.state(), LeaderState::Standby);
}

fn audit_at(ts: u64) -> AuditEntry {
    let mut e = AuditEntry::new(AuditActor::System, AuditAction::ConfigReloaded);
    e.timestamp_ns = ts;
    e
}

#[test]
fn audit_trail_selection() {
    let e = audit_at(10);
    let j = audit_journal_entry(&e, "{}".to_string());
    assert_eq!(j.entry_type, "audit");
    assert_eq!(j.timestamp_ns, 10);
    assert_eq!(j.sequence, None);
    let entries = vec![
        j.clone(),
        JournalEntry::new(JournalKind::Event, 11, "{}".to_string()),
        JournalEntry::new(JournalKind::Audit, 12, "{\"x\":1}".to_string()),
    ];
    let a = audit_records(&entries);
    assert_eq!(a.len(), 2);
    assert_eq!(a[1].payload, "{\"x\":1}");
    let r = entries_in_range(vec![audit_at(5), audit_at(10), audit_at(15), audit_at(20)], Some(10), Some(15));
    assert_eq!(r.iter().map(|e| e.timestamp_ns).collect::<Vec<_>>(), vec![10, 15]);
    let r = entries_in_range(vec![audit_at(5), audit_at(10)], None, None);
    assert_eq!(r.len(), 2);
}

fn sh(id: &str, status: HealthStatus) -> ServiceHealth {
    ServiceHealth { service_id: id.to_string(), status, last_heartbeat_ns: None, uptime_secs: None, details: None }
}

#[test]
fn query_views_of_health() {
    let mut s = HealthSnapshot::new();
    s.update_service("a".to_string(), sh("a", HealthStatus::Degraded));
    let sum = system_health(&s);
    assert_eq!(sum.overall_status, HealthStatus::Degraded);
    assert_eq!(sum.services, 1);
    assert_eq!(sum.timestamp_ns, s.timestamp_ns);
    assert_eq!(service_health(&s, "a").unwrap().status, HealthStatus::Degraded);
    assert!(service_health(&s, "b").is_none());
    assert_eq!(status_label(HealthStatus::Healthy), "Healthy");
    assert_eq!(status_label(HealthStatus::Degraded), "Degraded");
    assert_eq!(status_label(HealthStatus::Unhealthy), "Unhealthy");
    assert_eq!(status_label(HealthStatus::Unknown), "Unknown");
    assert_eq!(kill_switch_label(true), "active");
    assert_eq!(kill_switch_label(false), "inactive");
    assert_eq!(no_health_message(), "No health data available");
}

#[test]
fn health_poll_applies_results() {
    let mut s = HealthSnapshot::new();
    apply_health_poll(&mut s, &KeyedVec::new());
    assert_eq!(s.overall_status, HealthStatus::Unknown);
    let mut r = KeyedVec::new();
    r.insert("a".to_string(), sh("a", HealthStatus::Healthy));
    r.insert("b".to_string(), sh("b", HealthStatus::Unhealthy));
    apply_health_poll(&mut s, &r);
    assert_eq!(s.services.len(), 2);
    assert_eq!(s.overall_status, HealthStatus::Unhealthy);
    let mut r2 = KeyedVec::new();
    r2.insert("b".to_string(), sh("b", HealthStatus::Healthy));
    apply_health_poll(&mut s, &r2);
    assert_eq!(s.overall_status, HealthStatus::Healthy);
}

#[test]
fn events_are_routed_by_kind() {
    let e = WorkflowEvent::new(SystemEvent::CircuitBreakerOpened { service_id: "s".into() });
    let (entry, topic) = route(&e, "{}".to_string());
    assert_eq!(topic, "system.circuit_breaker");
    assert_eq!(entry.entry_type, "event");
    assert_eq!(entry.timestamp_ns, e.timestamp_ns);
    assert_eq!(entry.payload, "{}");
}

#[test]
fn runs_of_unregistered_definitions_are_refused() {
    let mut c = SagaCoordinator::new();
    let inst = orchestrator_service::domain::saga::SagaInstance::new("ghost");
    let id = inst.instance_id.clone();
    c.insert_instance(inst);
    match c.advance_saga(&id) {
        Err(OrchestratorError::SagaFailed(m)) => assert_eq!(m, "Saga definition not found: ghost"),
        _ => panic!(),
    }
    assert_eq!(c.get_instance(&id).unwrap().current_step, 0);
    match c.compensate_saga("missing") {
        Err(OrchestratorError::SagaFailed(m)) => assert_eq!(m, "Saga not found: missing"),
        _ => panic!(),
    }
    let mut w = WorkflowEngine::new();
    let run = orchestrator_service::domain::workflow::WorkflowInstance::new("ghost");
    let rid = run.instance_id.clone();
    w.insert_instance(run);
    match w.advance_workflow(&rid) {
        Err(OrchestratorError::WorkflowError(m)) => assert_eq!(m, "Workflow definition not found: ghost"),
        _ => panic!(),
    }
    assert_eq!(w.list_instances()[0].total_steps, 0);
}

#[test]
fn mode_history_is_a_chain_and_restores() {
    let mut c = ModeController::new();
    let mut journal = Vec::new();
    for target in [OperationMode::Live, OperationMode::Readonly, OperationMode::Offline, OperationMode::Paper] {
        match c.plan_transition(target, false) {
            Ok(TransitionPlan::Proceed(started)) => {
                journal.push(DecodedEntry {
                    entry_type: JournalKind::ModeTransitionStarted.as_str().to_string(),
                    event: Some(WorkflowEvent::new(started)),
                });
                let (completed, _) = c.commit_transition(target, "r", "a");
                journal.push(DecodedEntry {
                    entry_type: JournalKind::ModeTransitionCompleted.as_str().to_string(),
                    event: Some(WorkflowEvent::new(completed)),
                });
            }
            _ => panic!("expected to proceed"),
        }
    }
    assert!(c.plan_transition(OperationMode::Paper, false).is_err());
    let h = c.history();
    assert_eq!(h[0].from, OperationMode::Paper);
    for i in 1..h.len() {
        assert_eq!(h[i].from, h[i - 1].to);
    }
    for r in h.iter() {
        assert!(r.from.can_transition_to(&r.to) && r.success);
    }
    assert_eq!(h[h.len() - 1].to, c.current_mode());
    let mut fresh = ModeController::new();
    fresh.restore_from_journal(&journal);
    assert_eq!(fresh.current_mode(), c.current_mode());
    assert!(fresh.history().is_empty());
}

#[test]
fn saga_history_replays_and_stays_well_progressed() {
    let mut live = SagaCoordinator::new();
    register_all_named_sagas(&mut live);
    let inst = live.start_saga("circuit_breaker_open").unwrap();
    let id = inst.instance_id.clone();
    let mut journal = vec![WorkflowEvent::new(SagaCoordinator::started_event(&inst))];
    live.insert_instance(inst);
    let total = live.list_instances()[0].total_steps;
    for _ in 0..total + 2 {
        journal.push(WorkflowEvent::new(live.advance_saga(&id).unwrap()));
        let run = live.get_instance(&id).unwrap();
        assert!(run.current_step <= total);
        assert_eq!(run.completed_steps, (0..run.current_step).collect::<Vec<usize>>());
    }
    let a = live.get_instance(&id).unwrap();
    assert_eq!(a.state, SagaInstanceState::Completed);
    assert_eq!(a.current_step, total);
    let mut restored = SagaCoordinator::new();
    restored.restore_from_journal(&journal);
    let b = restored.get_instance(&id).unwrap();
    assert_eq!((b.current_step, b.completed_steps.clone(), b.state.clone()), (a.current_step, a.completed_steps.clone(), a.state.clone()));
    assert_eq!(b.saga_type, a.saga_type);
}

#[test]
fn interleaved_saga_runs_stay_well_progressed_and_replay() {
    let mut live = SagaCoordinator::new();
    register_all_named_sagas(&mut live);
    let first = live.start_saga("service_restart").unwrap();
    let second = live.start_saga("kill_switch_activation").unwrap();
    let (a_id, b_id) = (first.instance_id.clone(), second.instance_id.clone());
    let mut journal = vec![
        WorkflowEvent::new(SagaCoordinator::started_event(&first)),
        WorkflowEvent::new(SagaCoordinator::started_event(&second)),
    ];
    live.insert_instance(first);
    live.insert_instance(second);
    for round in 0..6 {
        let id = if round % 3 == 0 { &b_id } else { &a_id };
        journal.push(WorkflowEvent::new(live.advance_saga(id).unwrap()));
        for run in [live.get_instance(&a_id).unwrap(), live.get_instance(&b_id).unwrap()] {
            assert_eq!(run.completed_steps, (0..run.current_step).collect::<Vec<usize>>());
            assert!(run.state == SagaInstanceState::Running || run.state == SagaInstanceState::Completed);
        }
    }
    let mut restored = SagaCoordinator::new();
    restored.restore_from_journal(&journal);
    for id in [&a_id, &b_id] {
        let (x, y) = (live.get_instance(id).unwrap(), restored.get_instance(id).unwrap());
        assert_eq!((x.saga_type, x.current_step, x.completed_steps, x.state), (y.saga_type, y.current_step, y.completed_steps, y.state));
    }
}
