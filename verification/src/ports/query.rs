use vstd::prelude::*;

verus! {

/// A read-only question to the orchestrator.
#[derive(Debug, Clone, PartialEq, Eq)]
pub enum OrchestratorQuery {
    GetSystemHealth,
    GetServiceHealth { service_id: String },
    GetAllServiceHealth,
    GetKillSwitchStatus,
    GetOperationMode,
    GetModeHistory,
    GetActivePolicies,
    GetPolicy { policy_id: String },
    GetServiceControlSummary,
    GetServiceControlDetail { service_id: String },
    GetAuditLog {
        from: Option<u64>,
        to: Option<u64>,
        actor: Option<String>,
        action: Option<String>,
        limit: Option<usize>,
    },
    GetAuditEntry { entry_id: String },
    ListWorkflows,
    GetWorkflowInstance { instance_id: String },
    ListActiveSagas,
    GetConfig,
    GetConfigDiff,
}

} // verus!
