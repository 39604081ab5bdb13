//! Control-plane library of a trading-system orchestrator: operation modes,
//! health aggregation, sagas and workflows, policies, circuit breakers and
//! rate limiters, together with the rules that replay their journals.
pub mod keyed;
pub mod selection;
pub mod text;
pub mod time_source;
pub mod domain;
pub mod application;
pub mod patterns;
pub mod policies;
pub mod config;
pub mod persistence;
pub mod health_sources;
pub mod ports;
pub mod connectors;
pub mod metrics;
