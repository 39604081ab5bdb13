pub mod journal_log;
pub mod audit_store;
pub mod workflow_state_store;
