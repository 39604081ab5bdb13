pub mod orchestrator_config;
pub mod policy_config;
pub mod service_config;
