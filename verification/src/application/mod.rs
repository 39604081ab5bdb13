pub mod saga_coordinator;
pub mod named_sagas;
pub mod mode_controller;
pub mod kill_switch_controller;
pub mod policy_engine;
pub mod workflow_engine;
pub mod command_handler;
pub mod audit_trail;
pub mod leader_election;
pub mod event_router;
pub mod query_handler;
pub mod health_aggregator;
