//! Protocol types shared between agents and the backend.

pub mod agent;
pub mod errors;
pub mod messages;
pub mod protocol;
pub mod task;
