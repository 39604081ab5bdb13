use vstd::prelude::*;

verus! {

/// How the orchestrator reaches one managed service, and how it retries.
#[derive(Debug, Clone)]
pub struct ServiceConfig {
    pub id: String,
    pub name: String,
    pub endpoint: String,
    pub health_endpoint: Option<String>,
    pub control_endpoint: Option<String>,
    pub retry_max_attempts: u32,
    pub retry_base_backoff_ms: u64,
    pub retry_max_backoff_ms: u64,
    pub retry_jitter: bool,
}

/// Attempts per call when the configuration does not say.
pub fn default_retry_max_attempts() -> (r: u32)
    ensures
        r == 3,
{
    3
}

/// First back-off, in milliseconds, when the configuration does not say.
pub fn default_retry_base_backoff_ms() -> (r: u64)
    ensures
        r == 100,
{
    100
}

/// Longest back-off, in milliseconds, when the configuration does not say.
pub fn default_retry_max_backoff_ms() -> (r: u64)
    ensures
        r == 2000,
{
    2000
}

} // verus!
