pub mod circuit_breaker;
pub mod rate_limiter;
pub mod idempotency;
pub mod retry;
pub mod telemetry;
