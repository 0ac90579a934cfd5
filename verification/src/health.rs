//! Health: circuit breaker, retry decisions and health monitoring.

pub mod circuit_breaker;
pub mod monitor;
pub mod retry;
