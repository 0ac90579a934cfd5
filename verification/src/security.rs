//! Security: rate limiting, task token checks and audit entries.

pub mod ratelimit;
pub mod jwt;
pub mod audit;
