//! Messages between agents and the backend. Identifiers are 128-bit UUID
//! values, times are milliseconds since the Unix epoch and free-form JSON
//! values are JSON texts. The messages that carry measurements with
//! fractions are kept by the program around the library.

use crate::proto::agent::AGENT_VERSION;
use crate::proto::protocol::PROTOCOL_VERSION;
use vstd::prelude::*;

verus! {

/// What an agent tells the backend when it registers.
#[derive(Debug)]
pub struct RegisterPayload {
    pub agent_name: String,
    pub version: String,
    pub capabilities: Vec<String>,
    pub platform: Option<String>,
    pub runtime: Option<String>,
    pub protocol_version: u32,
    pub total_memory: Option<u64>,
    pub cpu_cores: Option<u32>,
    pub agent_id: Option<u128>,
    pub ip: String,
    pub os_info: Option<String>,
    pub podman_version: Option<String>,
    pub containers: Vec<String>,
}

impl RegisterPayload {
    /// A registration of an agent on the operating system `os`, with this
    /// software's version and protocol version and nothing else known yet.
    pub fn new(agent_name: String, capabilities: Vec<String>, os: String) -> (p: Self)
        ensures
            p.agent_name@ == agent_name@,
            p.version@ == AGENT_VERSION@,
            p.capabilities@ == capabilities@,
            p.platform is Some && p.platform->Some_0@ == os@,
            p.runtime is None,
            p.protocol_version == PROTOCOL_VERSION,
            p.total_memory is None,
            p.cpu_cores is None,
            p.agent_id is None,
            p.ip@ == Seq::<char>::empty(),
            p.os_info is Some && p.os_info->Some_0@ == os@,
            p.podman_version is None,
            p.containers@.len() == 0,
    {
        RegisterPayload {
            agent_name,
            version: String::from_str(AGENT_VERSION),
            capabilities,
            platform: Some(os.clone()),
            runtime: None,
            protocol_version: PROTOCOL_VERSION,
            total_memory: None,
            cpu_cores: None,
            agent_id: None,
            ip: String::new(),
            os_info: Some(os),
            podman_version: None,
            containers: Vec::new(),
        }
    }

    /// Adds the machine's memory and processor count.
    pub fn with_system_info(self, total_memory: u64, cpu_cores: u32) -> (p: Self)
        ensures
            p.total_memory == Some(total_memory),
            p.cpu_cores == Some(cpu_cores),
            p.agent_name == self.agent_name,
            p.version == self.version,
            p.capabilities == self.capabilities,
            p.platform == self.platform,
            p.runtime == self.runtime,
            p.protocol_version == self.protocol_version,
            p.agent_id == self.agent_id,
            p.ip == self.ip,
            p.os_info == self.os_info,
            p.podman_version == self.podman_version,
            p.containers == self.containers,
    {
        RegisterPayload { total_memory: Some(total_memory), cpu_cores: Some(cpu_cores), ..self }
    }

    /// Adds the node's identity, address, system description and podman
    /// version.
    pub fn with_node_info(self, agent_id: u128, ip: String, os_info: String, podman_version: Option<String>) -> (p: Self)
        ensures
            p.agent_id == Some(agent_id),
            p.ip == ip,
            p.os_info == Some(os_info),
            p.podman_version == podman_version,
            p.agent_name == self.agent_name,
            p.version == self.version,
            p.capabilities == self.capabilities,
            p.platform == self.platform,
            p.runtime == self.runtime,
            p.protocol_version == self.protocol_version,
            p.total_memory == self.total_memory,
            p.cpu_cores == self.cpu_cores,
            p.containers == self.containers,
    {
        RegisterPayload { agent_id: Some(agent_id), ip, os_info: Some(os_info), podman_version, ..self }
    }
}

/// The backend's answer to a registration.
#[derive(Debug, Clone, Copy)]
pub struct RegisterAckPayload {
    pub agent_id: Option<u128>,
    pub heartbeat_interval_secs: u64,
    pub protocol_version: u32,
}

#[derive(Debug, Clone, Copy, PartialEq, Eq, Structural)]
pub enum LogStream {
    Stdout,
    Stderr,
}

/// A line of output of a server.
#[derive(Debug)]
pub struct LogLinePayload {
    pub agent_id: u128,
    pub line: String,
    pub timestamp: i64,
    pub stream: LogStream,
}

/// How much of a mounted file system is used.
#[derive(Debug)]
pub struct DiskUsage {
    pub mount_point: String,
    pub used_bytes: u64,
    pub total_bytes: u64,
}

#[derive(Debug, Clone, Copy, PartialEq, Eq, Structural)]
pub enum AgentStatus {
    Online,
    Offline,
    Busy,
    Error,
}

impl Default for AgentStatus {
    fn default() -> (s: Self)
        ensures
            s == AgentStatus::Online,
    {
        AgentStatus::Online
    }
}

/// The backend asks the agent to cancel a task.
#[derive(Debug)]
pub struct TaskCancelPayload {
    pub task_id: u128,
    pub reason: Option<String>,
}

/// DNS settings sent by the backend.
#[derive(Debug)]
pub struct DnsConfigPayload {
    pub api_token: String,
    pub zone_id: String,
    pub zone_name: String,
    pub wildcard_domain: String,
    pub auto_refresh: bool,
    pub refresh_interval_secs: u64,
    pub public_ip: Option<String>,
    pub subdomain: Option<String>,
}

#[derive(Debug, Clone, Copy, PartialEq, Eq, Structural)]
pub enum DnsRecordStatus {
    Created,
    Updated,
    Deleted,
    Error,
}

/// The state of a DNS record, as the agent reports it.
#[derive(Debug)]
pub struct DnsStatusPayload {
    pub domain: String,
    pub record_type: String,
    pub record_id: Option<String>,
    pub ip: String,
    pub status: DnsRecordStatus,
    pub message: Option<String>,
}

/// A crash of a server, with the end of its log.
#[derive(Debug)]
pub struct CrashReportPayload {
    pub agent_id: u128,
    pub exit_code: i32,
    pub log_excerpt: String,
    pub timestamp: i64,
}

/// A server reachable through the relay gateway.
#[derive(Debug)]
pub struct RelayServerInfo {
    pub server_id: u128,
    pub subdomain: String,
    pub local_mc_addr: String,
    pub public_port: u16,
    pub loader: Option<String>,
}

/// The relay settings of all servers of a node.
#[derive(Debug)]
pub struct RelayConfigPayload {
    pub relay_token: String,
    pub gateway_url: String,
    pub region: String,
    pub servers: Vec<RelayServerInfo>,
}

/// Something that happened to a container.
#[derive(Debug)]
pub struct ContainerEventPayload {
    pub agent_id: u128,
    pub event: String,
    pub container_id: String,
    pub container_name: String,
}

/// An error reported by the backend.
#[derive(Debug)]
pub struct BackendErrorPayload {
    pub code: String,
    pub message: String,
}

/// The backend asks the agent to close the relay tunnel of a server.
#[derive(Debug, Clone, Copy)]
pub struct RelayDisconnectPayload {
    pub server_id: u128,
}

/// The backend asks the agent to open a relay tunnel for a single server:
/// on server creation when a node is already assigned, and on reconnection
/// for every server of the node.
#[derive(Debug)]
pub struct RelayConnectPayload {
    pub server_id: u128,
    /// Short hex subdomain the server is reachable at on the relay gateway.
    pub subdomain: String,
    /// Gateway public port.
    pub public_port: u16,
    /// Local address the relay client forwards to.
    pub local_mc_addr: String,
    /// Optional loader; `bedrock` means a UDP relay instead of TCP
    /// subdomain routing.
    pub loader: Option<String>,
}

} // verus!
