//! Task queueing and dispatch decisions.

pub mod queue;
pub mod dispatcher;
