use orchestrator_service::config::orchestrator_config::{
    default_command_channel_size, default_health_poll_interval_secs, default_journal_path, default_jwt_secret,
};
use orchestrator_service::config::policy_config::{
    CircuitBreakerPolicyConfig, ModeTransitionPolicyConfig, RateLimitPolicyConfig,
};
use orchestrator_service::config::service_config::{
    default_retry_base_backoff_ms, default_retry_max_attempts, default_retry_max_backoff_ms,
};
use orchestrator_service::domain::operation_mode::OperationMode;
use orchestrator_service::domain::policy::{ParamValue, PolicyDecision, PolicyParameters};
use orchestrator_service::keyed::KeyedVec;
use orchestrator_service::patterns::circuit_breaker::{CircuitBreaker, CircuitState};
use orchestrator_service::patterns::idempotency::IdempotencyStore;
use orchestrator_service::patterns::rate_limiter::RateLimiter;
use orchestrator_service::patterns::retry::should_retry;
use orchestrator_service::patterns::telemetry::TraceContext;
use orchestrator_service::policies::circuit_breaker_policy::CircuitBreakerPolicy;
use orchestrator_service::policies::config_policy_adapter::{policy_kind, ConfigPolicyAdapter, PolicyKind};
use orchestrator_service::policies::mode_transition_policy::ModeTransitionPolicy;
use orchestrator_service::policies::rate_limit_policy::RateLimitPolicy;

const SEC: u64 = 1_000_000_000;

#[test]
fn breaker_opens_at_threshold() {
    let mut b = CircuitBreaker::new(3, 30, 10);
    assert_eq!(b.state(), CircuitState::Closed);
    b.record_failure_at(1);
    b.record_failure_at(2);
    assert_eq!(b.state(), CircuitState::Closed);
    assert!(b.can_execute_at(3));
    b.record_failure_at(4);
    assert_eq!(b.state(), CircuitState::Open);
    assert_eq!(b.failure_count(), 3);
}

#[test]
fn open_breaker_blocks_until_cooldown() {
    let mut b = CircuitBreaker::new(1, 30, 10);
    b.record_failure_at(SEC);
    assert_eq!(b.state(), CircuitState::Open);
    assert!(!b.can_execute_at(SEC + 29 * SEC));
    assert_eq!(b.state(), CircuitState::Open);
    assert!(b.can_execute_at(SEC + 30 * SEC));
    assert_eq!(b.state(), CircuitState::HalfOpen);
    assert!(b.can_execute_at(SEC + 30 * SEC));
}

#[test]
fn success_and_reset_close_the_breaker() {
    let mut b = CircuitBreaker::new(1, 30, 10);
    b.record_failure_at(5);
    assert_eq!(b.state(), CircuitState::Open);
    b.record_success();
    assert_eq!(b.state(), CircuitState::Closed);
    assert_eq!(b.failure_count(), 0);
    b.record_failure_at(6);
    b.reset();
    assert_eq!(b.state(), CircuitState::Closed);
    assert_eq!(b.failure_count(), 0);
    assert!(b.can_execute_at(7));
}

#[test]
fn breaker_on_the_real_clock() {
    let mut b = CircuitBreaker::new(2, 3600, 10);
    assert!(b.can_execute());
    b.record_failure();
    b.record_failure();
    assert_eq!(b.state(), CircuitState::Open);
    assert!(!b.can_execute());
}

#[test]
fn rate_limit_allows_limit_plus_burst_per_window() {
    let mut r = RateLimiter::new();
    assert!(r.check_rate_at("unlimited", 0));
    r.configure_at("svc", 3, 2, 0);
    assert!(r.limit_fits("svc"));
    for i in 0..5 {
        assert!(r.check_rate_at("svc", i), "request {} should pass", i);
    }
    assert!(!r.check_rate_at("svc", 10));
    assert_eq!(r.current_usage("svc"), Some((5, 3)));
    assert!(r.check_rate_at("svc", 60 * SEC));
    assert_eq!(r.current_usage("svc"), Some((1, 3)));
    assert_eq!(r.current_usage("other"), None);
}

#[test]
fn rate_limit_fit_check() {
    let mut r = RateLimiter::new();
    r.configure_at("big", u32::MAX, 1, 0);
    assert!(!r.limit_fits("big"));
    assert!(r.limit_fits("none"));
    r.configure("svc", 1, 0);
    assert!(r.check_rate("svc"));
    assert!(!r.check_rate("svc"));
}

#[test]
fn idempotency_within_ttl() {
    let mut s = IdempotencyStore::new(60);
    assert!(!s.is_duplicate_at("k", 100));
    s.mark_processed_at("k", 100);
    assert!(s.is_duplicate_at("k", 100));
    assert!(s.is_duplicate_at("k", 159));
    assert!(!s.is_duplicate_at("k", 160));
    assert!(!s.is_duplicate_at("other", 120));
}

#[test]
fn idempotency_cleanup_keeps_fresh_keys() {
    let mut s = IdempotencyStore::new(60);
    s.mark_processed_at("old", 10);
    s.mark_processed_at("new", 100);
    let before = (s.is_duplicate_at("old", 120), s.is_duplicate_at("new", 120));
    s.cleanup_at(120);
    assert_eq!((s.is_duplicate_at("old", 120), s.is_duplicate_at("new", 120)), before);
    assert_eq!(before, (false, true));
    s.mark_processed("now");
    assert_eq!(s.is_duplicate("now"), Some(true));
    assert!(s.cleanup());
    assert_eq!(s.is_duplicate("now"), Some(true));
}

#[test]
fn trace_context_ids() {
    let t = TraceContext::new();
    assert_eq!(t.trace_id.0.len(), 36);
    assert_eq!(t.correlation_id.len(), 36);
    assert_ne!(t.trace_id.0, t.correlation_id);
}

#[test]
fn circuit_breaker_policy_decisions() {
    let p = CircuitBreakerPolicy::new(5, 30, 10);
    assert_eq!(p.config(), (5, 30, 10));
    assert_eq!(p.evaluate(Some(5)), PolicyDecision::CircuitBreak { cooldown_secs: 30 });
    assert_eq!(p.evaluate(Some(9)), PolicyDecision::CircuitBreak { cooldown_secs: 30 });
    assert_eq!(p.evaluate(Some(4)), PolicyDecision::Allow);
    assert_eq!(p.evaluate(None), PolicyDecision::Allow);
}

#[test]
fn rate_limit_policy_decisions() {
    let p = RateLimitPolicy::new(500);
    assert_eq!(p.evaluate(Some(501)), PolicyDecision::Throttle { max_rate: 500 });
    assert_eq!(p.evaluate(Some(500)), PolicyDecision::Allow);
    assert_eq!(p.evaluate(None), PolicyDecision::Allow);
}

#[test]
fn mode_transition_policy_agrees_with_modes() {
    let p = ModeTransitionPolicy::new();
    let modes = [OperationMode::Live, OperationMode::Paper, OperationMode::Readonly, OperationMode::Offline];
    for a in modes {
        for b in modes {
            let d = p.evaluate(&a, &b);
            if a.can_transition_to(&b) {
                assert_eq!(d, PolicyDecision::Allow);
            } else {
                assert_eq!(
                    d,
                    PolicyDecision::Deny {
                        reason: format!("Transition from {} to {} is not allowed", a.as_str(), b.as_str())
                    }
                );
            }
        }
    }
}

#[test]
fn config_adapter_rate_limit() {
    let mut a = ConfigPolicyAdapter::new();
    assert_eq!(a.evaluate_rate_limit(Some(1000)), PolicyDecision::Allow);
    let mut p = PolicyParameters::new();
    p.values.insert("global_max_orders_per_min".to_string(), ParamValue::PosInt(100));
    let mut all = KeyedVec::new();
    all.insert("rate_limit".to_string(), p);
    assert!(a.reload_policies(&all).is_ok());
    assert_eq!(a.evaluate_rate_limit(Some(101)), PolicyDecision::Throttle { max_rate: 100 });
    assert_eq!(a.evaluate_rate_limit(Some(100)), PolicyDecision::Allow);
    assert_eq!(a.evaluate_rate_limit(None), PolicyDecision::Allow);
    assert_eq!(a.get_all_policies(), vec![("rate_limit".to_string(), true)]);
    assert_eq!(a.policy_parameters("rate_limit").unwrap().get_u32("global_max_orders_per_min"), Some(100));
    assert!(a.policy_parameters("drawdown").is_none());
}

#[test]
fn config_adapter_reload_keeps_unnamed() {
    let mut a = ConfigPolicyAdapter::new();
    let mut first = KeyedVec::new();
    first.insert("drawdown".to_string(), PolicyParameters::new());
    first.insert("rate_limit".to_string(), PolicyParameters::new());
    a.reload_policies(&first).unwrap();
    let mut p = PolicyParameters::new();
    p.values.insert("global_max_orders_per_min".to_string(), ParamValue::PosInt(7));
    let mut second = KeyedVec::new();
    second.insert("rate_limit".to_string(), p);
    a.reload_policies(&second).unwrap();
    assert_eq!(a.get_all_policies().len(), 2);
    assert!(a.policy_parameters("drawdown").is_some());
    assert_eq!(a.evaluate_rate_limit(Some(8)), PolicyDecision::Throttle { max_rate: 7 });
}

#[test]
fn configuration_defaults() {
    assert_eq!(default_journal_path(), "./data/journal");
    assert_eq!(default_health_poll_interval_secs(), 5);
    assert_eq!(default_command_channel_size(), 1000);
    assert_eq!(default_jwt_secret(), "orchestrator-secret-change-me");
    assert_eq!(default_retry_max_attempts(), 3);
    assert_eq!(default_retry_base_backoff_ms(), 100);
    assert_eq!(default_retry_max_backoff_ms(), 2000);
    let r = RateLimitPolicyConfig::default();
    assert_eq!(r.global_max_orders_per_min, 500);
    assert_eq!(r.per_service.len(), 0);
    let m = ModeTransitionPolicyConfig::default();
    assert_eq!(
        m.allowed_transitions,
        vec!["offline->paper", "paper->live", "paper->readonly", "live->paper", "live->readonly", "readonly->paper"]
    );
    let c = CircuitBreakerPolicyConfig::default();
    assert_eq!((c.failure_threshold, c.cooldown_secs, c.half_open_probe_interval_secs), (5, 30, 10));
}

#[test]
fn duplicate_check_ignores_other_keys_stamps() {
    let mut s = IdempotencyStore::new(60);
    s.mark_processed_at("k", 100);
    s.mark_processed_at("future", 500);
    assert!(s.is_duplicate_at("k", 120));
    assert!(!s.is_duplicate_at("missing", 120));
    s.mark_processed("now");
    assert_eq!(s.is_duplicate("now"), Some(true));
    assert_eq!(s.is_duplicate("absent"), Some(false));
}

#[test]
fn rate_limit_over_many_requests_in_one_window() {
    let mut r = RateLimiter::new();
    r.configure_at("svc", 4, 3, 1_000);
    let results: Vec<bool> = (0..12u64).map(|i| r.check_rate_at("svc", 1_000 + i * 1_000_000_000)).collect();
    assert_eq!(results, vec![true, true, true, true, true, true, true, false, false, false, false, false]);
    assert_eq!(r.current_usage("svc"), Some((7, 4)));
}

#[test]
fn successive_checks_of_configured_and_unconfigured_services() {
    let mut r = RateLimiter::new();
    r.configure_at("svc", 2, 1, 5_000);
    let mut seen = Vec::new();
    for k in 1..=6u64 {
        seen.push(r.check_rate_at("svc", 5_000 + k * 7_000_000_000));
        let expected = if k < 3 { k as u32 } else { 3 };
        assert_eq!(r.current_usage("svc"), Some((expected, 2)));
        assert!(r.check_rate_at("other", 5_000 + k));
        assert_eq!(r.current_usage("other"), None);
    }
    assert_eq!(seen, vec![true, true, true, false, false, false]);
}

#[test]
fn retry_only_while_attempts_remain() {
    assert!(should_retry(3, 0));
    assert!(should_retry(3, 2));
    assert!(!should_retry(3, 3));
    assert!(!should_retry(3, 7));
    assert!(!should_retry(0, 0));
}

#[test]
fn policy_ids_name_their_policies() {
    assert_eq!(policy_kind("drawdown"), PolicyKind::Drawdown);
    assert_eq!(policy_kind("rate_limit"), PolicyKind::RateLimit);
    assert_eq!(policy_kind("volatility"), PolicyKind::Volatility);
    assert_eq!(policy_kind("Drawdown"), PolicyKind::Other);
    assert_eq!(policy_kind(""), PolicyKind::Other);
    assert_eq!(policy_kind("rate_limit "), PolicyKind::Other);
}
