pub mod circuit_breaker_policy;
pub mod rate_limit_policy;
pub mod mode_transition_policy;
pub mod config_policy_adapter;
pub mod policy_registry;
