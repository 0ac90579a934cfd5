//! Agent identity and status.

use crate::clock::{new_uuid_v4, now_unix_millis};
use vstd::prelude::*;

verus! {

/// The version of this agent software.
pub const AGENT_VERSION: &'static str = "0.1.0";

#[derive(Debug, Clone, Copy, PartialEq, Eq, Structural)]
pub enum AgentState {
    Pending,
    Registered,
    Connected,
    Disconnected,
    Error,
}

impl Default for AgentState {
    fn default() -> (s: Self)
        ensures
            s == AgentState::Pending,
    {
        AgentState::Pending
    }
}

/// What the backend knows of an agent. Identifiers are 128-bit UUID values;
/// times are milliseconds since the Unix epoch.
#[derive(Debug)]
pub struct AgentInfo {
    pub agent_id: u128,
    pub agent_name: String,
    pub version: String,
    pub platform: String,
    pub capabilities: Vec<String>,
    pub runtime: Option<String>,
    pub status: AgentState,
    pub registered_at: i64,
    pub last_seen: i64,
}

impl AgentInfo {
    /// A pending agent with a fresh identifier, this software's version and
    /// no runtime, registered and seen now. `platform` names the operating
    /// system the agent runs on.
    pub fn new(agent_name: String, capabilities: Vec<String>, platform: String) -> (a: Self)
        ensures
            a.agent_name@ == agent_name@,
            a.capabilities@ == capabilities@,
            a.platform@ == platform@,
            a.version@ == AGENT_VERSION@,
            a.runtime is None,
            a.status == AgentState::Pending,
            (a.agent_id >> 76u128) & 0xfu128 == 4,
    {
        AgentInfo {
            agent_id: new_uuid_v4(),
            agent_name,
            version: String::from_str(AGENT_VERSION),
            platform,
            capabilities,
            runtime: None,
            status: AgentState::Pending,
            registered_at: now_unix_millis(),
            last_seen: now_unix_millis(),
        }
    }
}

/// A periodic sign of life of an agent; `timestamp` is in milliseconds
/// since the Unix epoch.
#[derive(Debug, Clone, Copy)]
pub struct Heartbeat {
    pub agent_id: u128,
    pub timestamp: i64,
    pub task_count: u32,
    pub status: AgentState,
}

impl Heartbeat {
    /// A heartbeat sent now.
    pub fn new(agent_id: u128, task_count: u32, status: AgentState) -> (h: Self)
        ensures
            h.agent_id == agent_id,
            h.task_count == task_count,
            h.status == status,
    {
        Heartbeat { agent_id, timestamp: now_unix_millis(), task_count, status }
    }
}

} // verus!
