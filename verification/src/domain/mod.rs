pub mod errors;
pub mod operation_mode;
pub mod health;
pub mod events;
pub mod workflow;
pub mod saga;
pub mod policy;
pub mod commands;
pub mod journal;
pub mod audit;
pub mod service_registry;
