use vstd::prelude::*;
use vstd::string::*;

verus! {

/// Everything that can go wrong in the orchestrator; each variant carries
/// the message that explains it.
#[derive(Debug, Clone, PartialEq, Eq)]
pub enum OrchestratorError {
    Journal(String),
    Bus(String),
    ServiceUnreachable(String),
    ServiceTimeout(String),
    ServiceRejected(String),
    HealthCheckFailed(String),
    PolicyError(String),
    WorkflowError(String),
    SagaFailed(String),
    SagaCompensationFailed(String),
    InvalidModeTransition { from: String, to: String },
    KillSwitchFailed(String),
    ConfigError(String),
    SerializationError(String),
    CommandQueueFull,
    ServiceNotRegistered(String),
    IdempotencyConflict(String),
    CircuitBreakerOpen(String),
    RateLimitExceeded(String),
    AuthFailed(String),
    PermissionDenied(String),
    Internal(String),
}

/// `prefix` followed by `s`, as a new string.
pub fn concat_str(prefix: &str, s: &str) -> (r: String)
    ensures
        r@ == prefix@ + s@,
{
    let p = String::from_str(prefix);
    p.concat(s)
}

/// The message that describes an error.
pub open spec fn error_message(e: OrchestratorError) -> Seq<char> {
    match e {
        OrchestratorError::Journal(m) => "Journal error: "@ + m@,
        OrchestratorError::Bus(m) => "Bus error: "@ + m@,
        OrchestratorError::ServiceUnreachable(m) => "Service unreachable: "@ + m@,
        OrchestratorError::ServiceTimeout(m) => "Service response timeout: "@ + m@,
        OrchestratorError::ServiceRejected(m) => "Service rejected command: "@ + m@,
        OrchestratorError::HealthCheckFailed(m) => "Health check failed: "@ + m@,
        OrchestratorError::PolicyError(m) => "Policy evaluation failed: "@ + m@,
        OrchestratorError::WorkflowError(m) => "Workflow error: "@ + m@,
        OrchestratorError::SagaFailed(m) => "Saga failed: "@ + m@,
        OrchestratorError::SagaCompensationFailed(m) => "Saga compensation failed: "@ + m@,
        OrchestratorError::KillSwitchFailed(m) => "Kill switch activation failed: "@ + m@,
        OrchestratorError::ConfigError(m) => "Configuration error: "@ + m@,
        OrchestratorError::SerializationError(m) => "Serialization error: "@ + m@,
        OrchestratorError::ServiceNotRegistered(m) => "Service not registered: "@ + m@,
        OrchestratorError::IdempotencyConflict(m) => "Idempotency conflict: duplicate request "@ + m@,
        OrchestratorError::CircuitBreakerOpen(m) => "Circuit breaker open for service: "@ + m@,
        OrchestratorError::RateLimitExceeded(m) => "Rate limit exceeded for service: "@ + m@,
        OrchestratorError::AuthFailed(m) => "Authentication failed: "@ + m@,
        OrchestratorError::PermissionDenied(m) => "Permission denied: "@ + m@,
        OrchestratorError::Internal(m) => "Internal error: "@ + m@,
        OrchestratorError::InvalidModeTransition { from, to } => "Invalid operation mode transition: from "@ + from@ + " to "@ + to@,
        OrchestratorError::CommandQueueFull => "Already processing command, try again later"@,
    }
}

impl OrchestratorError {
    /// The message that describes this error.
    pub fn message(&self) -> (r: String)
        ensures
            r@ == error_message(*self),
    {
        match self {
            OrchestratorError::Journal(m) => concat_str("Journal error: ", m.as_str()),
            OrchestratorError::Bus(m) => concat_str("Bus error: ", m.as_str()),
            OrchestratorError::ServiceUnreachable(m) => concat_str("Service unreachable: ", m.as_str()),
            OrchestratorError::ServiceTimeout(m) => concat_str("Service response timeout: ", m.as_str()),
            OrchestratorError::ServiceRejected(m) => concat_str("Service rejected command: ", m.as_str()),
            OrchestratorError::HealthCheckFailed(m) => concat_str("Health check failed: ", m.as_str()),
            OrchestratorError::PolicyError(m) => concat_str("Policy evaluation failed: ", m.as_str()),
            OrchestratorError::WorkflowError(m) => concat_str("Workflow error: ", m.as_str()),
            OrchestratorError::SagaFailed(m) => concat_str("Saga failed: ", m.as_str()),
            OrchestratorError::SagaCompensationFailed(m) => concat_str("Saga compensation failed: ", m.as_str()),
            OrchestratorError::KillSwitchFailed(m) => concat_str("Kill switch activation failed: ", m.as_str()),
            OrchestratorError::ConfigError(m) => concat_str("Configuration error: ", m.as_str()),
            OrchestratorError::SerializationError(m) => concat_str("Serialization error: ", m.as_str()),
            OrchestratorError::ServiceNotRegistered(m) => concat_str("Service not registered: ", m.as_str()),
            OrchestratorError::IdempotencyConflict(m) => concat_str("Idempotency conflict: duplicate request ", m.as_str()),
            OrchestratorError::CircuitBreakerOpen(m) => concat_str("Circuit breaker open for service: ", m.as_str()),
            OrchestratorError::RateLimitExceeded(m) => concat_str("Rate limit exceeded for service: ", m.as_str()),
            OrchestratorError::AuthFailed(m) => concat_str("Authentication failed: ", m.as_str()),
            OrchestratorError::PermissionDenied(m) => concat_str("Permission denied: ", m.as_str()),
            OrchestratorError::Internal(m) => concat_str("Internal error: ", m.as_str()),
            OrchestratorError::InvalidModeTransition { from, to } => {
                let s = concat_str("Invalid operation mode transition: from ", from.as_str());
                let s = s.concat(" to ");
                s.concat(to.as_str())
            },
            OrchestratorError::CommandQueueFull => String::from_str("Already processing command, try again later"),
        }
    }
}

} // verus!
