use orchestrator_service::connectors::{health_probe_payload, strategy_health, strategy_service_id, strategy_service_name};
use orchestrator_service::domain::audit::{AuditAction, AuditActor, AuditEntry};
use orchestrator_service::domain::errors::OrchestratorError;
use orchestrator_service::domain::health::HealthStatus;
use orchestrator_service::domain::journal::{JournalEntry, JournalKind};
use orchestrator_service::domain::workflow::WorkflowInstance;
use orchestrator_service::health_sources::bus_health::BusHealthAdapter;
use orchestrator_service::health_sources::http_health::{health_from_probe, HttpHealthTargets, ProbeOutcome};
use orchestrator_service::keyed::KeyedVec;
use orchestrator_service::metrics::metric_key;
use orchestrator_service::persistence::audit_store::{within, AuditStore};
use orchestrator_service::persistence::journal_log::{entries_from, latest_entries, JournalSequence};
use orchestrator_service::persistence::workflow_state_store::WorkflowStateStore;
use orchestrator_service::ports::event_bus::{
    default_publish_endpoint, default_request_endpoint, frame, frame_payload, publish_endpoint_variable,
    publish_failure, request_endpoint_variable, BusPublishError,
};
use orchestrator_service::ports::service_command::{broadcast_targets, pause_command, resume_command};
use orchestrator_service::text::{parse_u64, push_decimal, second_field_of, second_line_of};

const SEC: u64 = 1_000_000_000;

fn entry(ts: u64) -> JournalEntry {
    JournalEntry::new(JournalKind::Event, ts, format!("{{\"t\":{}}}", ts))
}

#[test]
fn journal_sequence_numbers() {
    let mut s = JournalSequence::new();
    assert_eq!(s.current(), 0);
    let (n1, e1) = s.stamp(entry(1));
    let (n2, e2) = s.stamp(entry(2));
    assert_eq!((n1, n2), (1, 2));
    assert_eq!(e1.sequence, Some(1));
    assert_eq!(e2.sequence, Some(2));
    assert_eq!(e2.timestamp_ns, 2);
    assert_eq!(s.current(), 2);
}

#[test]
fn journal_reads() {
    let mut s = JournalSequence::new();
    let mut all = Vec::new();
    for t in 0..5 {
        all.push(s.stamp(entry(t)).1);
    }
    all.insert(2, entry(99));
    let from3 = entries_from(&all, 3, 10);
    assert_eq!(from3.iter().map(|e| e.sequence).collect::<Vec<_>>(), vec![Some(3), Some(4), Some(5)]);
    let two = entries_from(&all, 2, 2);
    assert_eq!(two.iter().map(|e| e.sequence).collect::<Vec<_>>(), vec![Some(2), Some(3)]);
    assert!(entries_from(&all, 9, 10).is_empty());
    assert!(entries_from(&all, 0, 0).is_empty());
    let last2 = latest_entries(all.clone(), 2);
    assert_eq!(last2.iter().map(|e| e.sequence).collect::<Vec<_>>(), vec![Some(4), Some(5)]);
    assert_eq!(latest_entries(all.clone(), 100).len(), 6);
    assert!(latest_entries(all, 0).is_empty());
}

fn audit(ts: u64, who: &str) -> AuditEntry {
    let mut e = AuditEntry::new(AuditActor::Human { user_id: who.to_string() }, AuditAction::PolicyUpdated);
    e.timestamp_ns = ts;
    e
}

#[test]
fn audit_store_queries() {
    let mut s = AuditStore::new();
    for t in [5, 10, 15, 20, 25] {
        s.save(audit(t, "u"));
    }
    let q = s.query(Some(10), Some(20), 10);
    assert_eq!(q.iter().map(|e| e.timestamp_ns).collect::<Vec<_>>(), vec![10, 15, 20]);
    let q = s.query(Some(10), None, 2);
    assert_eq!(q.iter().map(|e| e.timestamp_ns).collect::<Vec<_>>(), vec![10, 15]);
    assert_eq!(s.query(None, None, 100).len(), 5);
    assert!(s.query(Some(30), None, 100).is_empty());
    assert!(within(5, None, Some(5)));
    assert!(!within(5, Some(6), None));
}

#[test]
fn audit_store_by_id() {
    let mut s = AuditStore::new();
    let e = audit(1, "a");
    let id = e.id.clone();
    s.save(e);
    s.save(audit(2, "b"));
    assert_eq!(s.get_by_id(&id).unwrap().timestamp_ns, 1);
    assert!(s.get_by_id("missing").is_none());
}

#[test]
fn workflow_store_reads_back_writes() {
    let mut s = WorkflowStateStore::new();
    let w = WorkflowInstance::new("wf");
    let id = w.instance_id.clone();
    s.save(w);
    assert_eq!(s.get(&id).unwrap().workflow_id, "wf");
    let mut w2 = s.get(&id).unwrap();
    w2.current_step = 3;
    s.save(w2);
    assert_eq!(s.get(&id).unwrap().current_step, 3);
    assert_eq!(s.list_all().len(), 1);
    s.remove(&id);
    assert!(s.get(&id).is_none());
    assert!(s.list_all().is_empty());
}

#[test]
fn bus_health_by_heartbeat_age() {
    let mut a = BusHealthAdapter::new(10);
    assert_eq!(a.get_health_at("svc", 0).status, HealthStatus::Unknown);
    a.record_heartbeat_at("svc", 100 * SEC);
    let h = a.get_health_at("svc", 100 * SEC);
    assert_eq!(h.status, HealthStatus::Healthy);
    assert_eq!(h.last_heartbeat_ns, Some(100 * SEC));
    assert_eq!(a.get_health_at("svc", 110 * SEC - 1).status, HealthStatus::Healthy);
    assert_eq!(a.get_health_at("svc", 110 * SEC).status, HealthStatus::Degraded);
    assert_eq!(a.get_health_at("svc", 120 * SEC - 1).status, HealthStatus::Degraded);
    assert_eq!(a.get_health_at("svc", 120 * SEC).status, HealthStatus::Unhealthy);
    assert_eq!(a.get_health_at("svc", 50 * SEC).status, HealthStatus::Healthy);
    a.record_heartbeat_at("other", 0);
    let all = a.get_all_health_at(105 * SEC);
    assert_eq!(all.len(), 2);
    assert_eq!(all.get("svc").unwrap().status, HealthStatus::Healthy);
    assert_eq!(all.get("other").unwrap().status, HealthStatus::Unhealthy);
    a.record_heartbeat("live");
    assert_eq!(a.get_health("live").status, HealthStatus::Healthy);
}

#[test]
fn http_health_targets() {
    let mut eps = KeyedVec::new();
    eps.insert("risk".to_string(), "http://risk/health".to_string());
    let t = HttpHealthTargets::new(eps);
    assert_eq!(t.endpoint_for("risk").unwrap(), "http://risk/health");
    match t.endpoint_for("model") {
        Err(OrchestratorError::HealthCheckFailed(m)) => assert_eq!(m, "No health endpoint for service: model"),
        _ => panic!(),
    }
    assert_eq!(t.service_ids(), vec!["risk".to_string()]);
    let ok = health_from_probe("risk", ProbeOutcome::Answered { success: true }, 7);
    assert_eq!((ok.status, ok.last_heartbeat_ns), (HealthStatus::Healthy, Some(7)));
    let bad = health_from_probe("risk", ProbeOutcome::Answered { success: false }, 7);
    assert_eq!((bad.status, bad.last_heartbeat_ns), (HealthStatus::Degraded, Some(7)));
    let none = health_from_probe("risk", ProbeOutcome::NoAnswer, 7);
    assert_eq!((none.status, none.last_heartbeat_ns), (HealthStatus::Unhealthy, None));
}

#[test]
fn bus_framing_round_trip() {
    let f = frame("system.mode", "{\"a\":1}");
    assert_eq!(f, "system.mode\0{\"a\":1}");
    assert_eq!(frame_payload(&f), Some("{\"a\":1}"));
    assert_eq!(frame_payload("no-nul"), None);
    assert_eq!(frame_payload("t\0a\0b"), Some("a"));
    assert_eq!(frame_payload("t\0"), Some(""));
}

#[test]
fn bus_errors_and_endpoints() {
    assert_eq!(BusPublishError::ConnectionLost("x".into()).message(), "Connection lost: x");
    assert_eq!(BusPublishError::SerializationFailed("x".into()).message(), "Serialization failed: x");
    assert_eq!(BusPublishError::TopicUnavailable("x".into()).message(), "Topic not available: x");
    match publish_failure(&BusPublishError::ConnectionLost("down".into())) {
        OrchestratorError::Bus(m) => assert_eq!(m, "Failed to publish event: Connection lost: down"),
        _ => panic!(),
    }
    assert_eq!(publish_endpoint_variable(), "ZMQ_PUB_ENDPOINT");
    assert_eq!(default_publish_endpoint(), "tcp://127.0.0.1:5555");
    assert_eq!(default_request_endpoint(), "tcp://127.0.0.1:5560");
    assert_eq!(request_endpoint_variable("strategy_service"), "STRATEGY_SERVICE_ENDPOINT");
    assert_eq!(request_endpoint_variable("risk-1"), "RISK-1_ENDPOINT");
}

#[test]
fn service_commands() {
    let p = pause_command();
    assert_eq!((p.command_type.as_str(), p.payload.as_str(), p.timeout_secs), ("pause", "{}", Some(5)));
    let r = resume_command();
    assert_eq!((r.command_type.as_str(), r.payload.as_str(), r.timeout_secs), ("resume", "{}", Some(5)));
    assert_eq!(
        broadcast_targets(),
        vec!["broker_gateway", "market_data_service", "feature_service", "model_service", "strategy_service", "risk_service", "execution_service"]
    );
}

#[test]
fn strategy_connector_health() {
    assert_eq!(strategy_service_id(), "strategy_service");
    assert_eq!(strategy_service_name(), "Strategy Service");
    assert_eq!(health_probe_payload(), "health");
    let h = strategy_health(true, 9);
    assert_eq!((h.status, h.last_heartbeat_ns), (HealthStatus::Healthy, Some(9)));
    assert_eq!(h.service_id, "strategy_service");
    let h = strategy_health(false, 9);
    assert_eq!((h.status, h.last_heartbeat_ns), (HealthStatus::Unhealthy, None));
}

#[test]
fn metric_keys() {
    assert_eq!(metric_key("orders", &vec![("svc", "a"), ("status", "ok")]), "orders[svc=a,status=ok]");
    assert_eq!(metric_key("x", &vec![]), "x[]");
    assert_eq!(metric_key("h", &vec![("service", "risk")]), "h[service=risk]");
}

#[test]
fn number_parsing() {
    assert_eq!(parse_u64("0"), Some(0));
    assert_eq!(parse_u64("+42"), Some(42));
    assert_eq!(parse_u64("18446744073709551615"), Some(u64::MAX));
    assert_eq!(parse_u64("18446744073709551616"), None);
    assert_eq!(parse_u64(""), None);
    assert_eq!(parse_u64("+"), None);
    assert_eq!(parse_u64("-1"), None);
    assert_eq!(parse_u64("12a"), None);
    assert_eq!(parse_u64(" 1"), None);
    for n in [0u64, 7, 10, 99, 1_700_000_000, u64::MAX] {
        let mut s = String::new();
        push_decimal(&mut s, n);
        assert_eq!(s, n.to_string());
        assert_eq!(parse_u64(&s), Some(n));
    }
}

#[test]
fn line_and_field_splitting() {
    for s in ["a\nb\n", "a\nb", "a\r\nb\r\n", "a\nb\nc", "a\n\nc", "a\n", "a", "", "\n", "a\nb\r", "x\r\ny\rz\n"] {
        assert_eq!(second_line_of(s), s.lines().nth(1), "lines of {:?}", s);
    }
    for s in ["a\0b", "a\0b\0c", "a", "\0", "a\0", "\0\0x"] {
        assert_eq!(second_field_of(s, '\0'), s.split('\0').nth(1), "fields of {:?}", s);
    }
}
