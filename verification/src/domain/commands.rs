use vstd::prelude::*;
use crate::domain::operation_mode::OperationMode;
use crate::domain::policy::PolicyParameters;
use crate::time_source::new_uuid_string;

verus! {

/// Identifies one command (a hyphenated UUID).
#[derive(Debug, Clone)]
pub struct CommandId(pub String);

impl CommandId {
    /// A fresh random command id.
    pub fn new() -> (r: Self)
        ensures
            r.0@.len() == 36,
    {
        CommandId(new_uuid_string())
    }
}

/// A request to the orchestrator. The input of a workflow is a JSON
/// document, held as its text.
#[derive(Debug)]
pub enum OrchestratorCommand {
    ActivateKillSwitch { reason: String, actor: String },
    ClearKillSwitch { reason: String, actor: String },
    TransitionMode { target_mode: OperationMode, reason: String, dry_run: bool },
    UpdatePolicy { policy_id: String, parameters: PolicyParameters },
    ReloadPolicies,
    PauseService { service_id: String, reason: String },
    ResumeService { service_id: String, reason: String },
    ResetCircuitBreaker { service_id: String },
    ConfigureCircuitBreaker { service_id: String, failure_threshold: u32, cooldown_secs: u64 },
    ConfigureRateLimiter { service_id: String, max_requests_per_min: u32, burst_capacity: u32 },
    TriggerWorkflow { workflow_id: String, input: String },
    CancelWorkflow { instance_id: String },
}

/// The orchestrator's answer to a command.
#[derive(Debug, Clone)]
pub struct CommandAck {
    pub command_id: CommandId,
    pub accepted: bool,
    pub message: String,
    pub saga_id: Option<String>,
}

impl CommandAck {
    /// An acceptance with `message`, under a fresh command id, opening no saga.
    pub fn accepted(message: String) -> (r: Self)
        ensures
            r.accepted,
            r.message == message,
            r.saga_id is None,
            r.command_id.0@.len() == 36,
    {
        CommandAck { command_id: CommandId::new(), accepted: true, message, saga_id: None }
    }
}

} // verus!
