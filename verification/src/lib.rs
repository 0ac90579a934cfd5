//! Agent core: protocol types, configuration, health, security, events,
//! capabilities, task queueing and the operational helpers of an agent.

pub mod backup;
pub mod capability;
pub mod channel;
pub mod clock;
pub mod config;
pub mod dispatch;
pub mod event;
pub mod health;
pub mod metrics;
pub mod proto;
pub mod rcon;
pub mod runtime;
pub mod security;
pub mod ssh;
pub mod text;
