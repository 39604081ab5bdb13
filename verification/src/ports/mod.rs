pub mod event_bus;
pub mod service_command;
pub mod query;
