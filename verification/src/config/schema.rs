//! The configuration of an agent.

use crate::proto::task::opt_text;
use vstd::prelude::*;

verus! {

#[derive(Debug, Clone, Copy, PartialEq, Eq, Structural)]
pub enum RuntimePreference {
    Auto,
    Docker,
    Podman,
    NoRuntime,
}

impl Default for RuntimePreference {
    fn default() -> (r: Self)
        ensures
            r == RuntimePreference::Auto,
    {
        RuntimePreference::Auto
    }
}

#[derive(Debug, Clone, Copy, PartialEq, Eq, Structural)]
pub enum LogFormat {
    Text,
    Json,
}

impl Default for LogFormat {
    fn default() -> (r: Self)
        ensures
            r == LogFormat::Text,
    {
        LogFormat::Text
    }
}

/// A secret, such as an API key.
#[derive(Debug, Clone)]
pub struct SecretString {
    inner: String,
}

impl View for SecretString {
    type V = Seq<char>;

    closed spec fn view(&self) -> Seq<char> {
        self.inner@
    }
}

impl SecretString {
    pub fn new(s: String) -> (r: Self)
        ensures
            r@ == s@,
    {
        SecretString { inner: s }
    }

    /// The secret itself.
    pub fn expose_secret(&self) -> (s: &str)
        ensures
            s@ == self@,
    {
        self.inner.as_str()
    }

    pub fn is_empty(&self) -> (b: bool)
        ensures
            b == (self@.len() == 0),
    {
        self.inner.unicode_len() == 0
    }
}

impl Default for SecretString {
    fn default() -> (r: Self)
        ensures
            r@ == Seq::<char>::empty(),
    {
        Self::new(String::new())
    }
}

impl From<String> for SecretString {
    fn from(s: String) -> (r: Self) {
        SecretString { inner: s }
    }
}

impl vstd::std_specs::convert::FromSpecImpl<String> for SecretString {
    open spec fn obeys_from_spec() -> bool {
        true
    }

    closed spec fn from_spec(v: String) -> Self {
        SecretString { inner: v }
    }
}

/// An IP address, as its number: 32 bits for version 4, 128 bits for
/// version 6 (the first octet or segment in the highest bits).
#[derive(Debug, Clone, Copy, PartialEq, Eq, Structural)]
pub enum IpAddress {
    V4(u32),
    V6(u128),
}

/// `Ipv4Addr::is_loopback` / `Ipv6Addr::is_loopback`: 127.0.0.0/8, or `::1`.
pub open spec fn spec_is_loopback(ip: IpAddress) -> bool {
    match ip {
        IpAddress::V4(a) => a / 0x100_0000 == 127,
        IpAddress::V6(a) => a == 1,
    }
}

/// `is_unspecified`: 0.0.0.0, or `::`.
pub open spec fn spec_is_unspecified(ip: IpAddress) -> bool {
    match ip {
        IpAddress::V4(a) => a == 0,
        IpAddress::V6(a) => a == 0,
    }
}

impl IpAddress {
    pub fn is_loopback(&self) -> (b: bool)
        ensures
            b == spec_is_loopback(*self),
    {
        match self {
            IpAddress::V4(a) => *a / 0x100_0000 == 127,
            IpAddress::V6(a) => *a == 1,
        }
    }

    pub fn is_unspecified(&self) -> (b: bool)
        ensures
            b == spec_is_unspecified(*self),
    {
        match self {
            IpAddress::V4(a) => *a == 0,
            IpAddress::V6(a) => *a == 0,
        }
    }
}

/// A socket address to listen on.
#[derive(Debug, Clone, Copy, PartialEq, Eq, Structural)]
pub struct ListenAddr {
    pub ip: IpAddress,
    pub port: u16,
}

/// The configuration of an agent. `agent_id` is a 128-bit UUID value and
/// `data_dir` a path. The floating-point settings (the reconnect backoff
/// multiplier and the alert thresholds) are kept by the program around the
/// library.
#[derive(Debug)]
pub struct AgentConfig {
    pub backend_url: String,
    pub api_key: SecretString,
    pub agent_name: String,
    pub agent_id: Option<u128>,
    pub heartbeat_interval_secs: u64,
    pub reconnect_initial_secs: u64,
    pub reconnect_max_secs: u64,
    pub ws_ping_interval_secs: u64,
    pub max_concurrent_tasks: usize,
    pub task_timeout_default_secs: u64,
    pub runtime_preference: RuntimePreference,
    pub metrics_interval_secs: u64,
    pub metrics_listen_addr: Option<ListenAddr>,
    pub log_level: String,
    pub log_format: LogFormat,
    pub default_timeout_secs: u64,
    pub operation_timeout_overrides: Vec<(String, u64)>,
    pub enable_cancel: bool,
    pub data_dir: String,
}

/// The abstract content of a configuration.
pub struct AgentConfigView {
    pub backend_url: Seq<char>,
    pub api_key: Seq<char>,
    pub agent_name: Seq<char>,
    pub agent_id: Option<u128>,
    pub heartbeat_interval_secs: u64,
    pub reconnect_initial_secs: u64,
    pub reconnect_max_secs: u64,
    pub ws_ping_interval_secs: u64,
    pub max_concurrent_tasks: usize,
    pub task_timeout_default_secs: u64,
    pub runtime_preference: RuntimePreference,
    pub metrics_interval_secs: u64,
    pub metrics_listen_addr: Option<ListenAddr>,
    pub log_level: Seq<char>,
    pub log_format: LogFormat,
    pub default_timeout_secs: u64,
    pub operation_timeout_overrides: Seq<(Seq<char>, u64)>,
    pub enable_cancel: bool,
    pub data_dir: Seq<char>,
}

impl View for AgentConfig {
    type V = AgentConfigView;

    open spec fn view(&self) -> AgentConfigView {
        AgentConfigView {
            backend_url: self.backend_url@,
            api_key: self.api_key@,
            agent_name: self.agent_name@,
            agent_id: self.agent_id,
            heartbeat_interval_secs: self.heartbeat_interval_secs,
            reconnect_initial_secs: self.reconnect_initial_secs,
            reconnect_max_secs: self.reconnect_max_secs,
            ws_ping_interval_secs: self.ws_ping_interval_secs,
            max_concurrent_tasks: self.max_concurrent_tasks,
            task_timeout_default_secs: self.task_timeout_default_secs,
            runtime_preference: self.runtime_preference,
            metrics_interval_secs: self.metrics_interval_secs,
            metrics_listen_addr: self.metrics_listen_addr,
            log_level: self.log_level@,
            log_format: self.log_format,
            default_timeout_secs: self.default_timeout_secs,
            operation_timeout_overrides: self.operation_timeout_overrides@.map_values(|e: (String, u64)| (e.0@, e.1)),
            enable_cancel: self.enable_cancel,
            data_dir: self.data_dir@,
        }
    }
}

/// `Path::join` of a relative component onto a base: the component after
/// the base and a `/`, unless the base is empty or already ends in `/`.
pub open spec fn spec_join_path(base: Seq<char>, component: Seq<char>) -> Seq<char> {
    if base.len() == 0 {
        component
    } else if base.last() == '/' {
        base + component
    } else {
        base + seq!['/'] + component
    }
}

/// Joins a relative path component onto a base path.
pub fn join_path(base: &str, component: &str) -> (r: String)
    ensures
        r@ == spec_join_path(base@, component@),
{
    let n = base.unicode_len();
    if n == 0 {
        String::from_str(component)
    } else if base.get_char(n - 1) == '/' {
        let mut r = String::from_str(base);
        r.append(component);
        r
    } else {
        let mut r = String::from_str(base);
        r.append("/");
        r.append(component);
        proof { reveal_strlit("/"); }
        assert(r@ =~= spec_join_path(base@, component@));
        r
    }
}

/// `dirs::data_local_dir`, as text. It depends on the machine and its
/// environment, so nothing is promised of it.
#[verifier::external_body]
pub(crate) fn data_local_dir() -> Option<String> {
    dirs::data_local_dir().map(|p| p.to_string_lossy().to_string())
}

/// `hostname::get`, as text; `None` when the name cannot be read. It
/// depends on the machine, so nothing is promised of it.
#[verifier::external_body]
pub(crate) fn host_name() -> Option<String> {
    match hostname::get() {
        Ok(h) => Some(h.to_string_lossy().to_string()),
        Err(_) => None,
    }
}

/// The defaults of every setting but the two that depend on the machine.
pub open spec fn spec_has_fixed_defaults(c: AgentConfig) -> bool {
    &&& c.backend_url@ == "wss://app.esluce.com/api/ws/node"@
    &&& c.api_key@ == Seq::<char>::empty()
    &&& c.agent_id is None
    &&& c.heartbeat_interval_secs == 30
    &&& c.reconnect_initial_secs == 2
    &&& c.reconnect_max_secs == 120
    &&& c.ws_ping_interval_secs == 20
    &&& c.max_concurrent_tasks == 10
    &&& c.task_timeout_default_secs == 300
    &&& c.runtime_preference == RuntimePreference::Auto
    &&& c.metrics_interval_secs == 60
    &&& c.metrics_listen_addr is None
    &&& c.log_level@ == "info"@
    &&& c.log_format == LogFormat::Text
    &&& c.default_timeout_secs == 30
    &&& c.operation_timeout_overrides@.len() == 0
    &&& c.enable_cancel
}

/// The two settings that depend on the machine, on one whose local data
/// directory and host name are `dir` and `host` (`None` where unknown): the
/// data directory is `escluse-agent` under `dir` (or under `.`), and the
/// agent is named `host` (or `agent`).
pub open spec fn spec_machine_defaults(c: AgentConfig, dir: Option<Seq<char>>, host: Option<Seq<char>>) -> bool {
    &&& c.data_dir@ == spec_join_path(match dir { Some(d) => d, None => "."@ }, "escluse-agent"@)
    &&& c.agent_name@ == match host { Some(h) => h, None => "agent"@ }
}

impl AgentConfig {
    /// The default configuration on a machine whose local data directory
    /// and host name are the given ones: the data directory is
    /// `escluse-agent` under the local data directory (or under `.`), and
    /// the agent is named after the host (or `agent`).
    pub fn for_host(data_local_dir: Option<String>, host_name: Option<String>) -> (c: Self)
        ensures
            spec_has_fixed_defaults(c),
            c.data_dir@ == spec_join_path(
                match data_local_dir { Some(d) => d@, None => "."@ },
                "escluse-agent"@,
            ),
            c.agent_name@ == match host_name { Some(h) => h@, None => "agent"@ },
    {
        let base = match data_local_dir {
            Some(d) => d,
            None => String::from_str("."),
        };
        let data_dir = join_path(base.as_str(), "escluse-agent");
        let agent_name = match host_name {
            Some(h) => h,
            None => String::from_str("agent"),
        };
        AgentConfig {
            backend_url: String::from_str("wss://app.esluce.com/api/ws/node"),
            api_key: SecretString::new(String::new()),
            agent_name,
            agent_id: None,
            heartbeat_interval_secs: 30,
            reconnect_initial_secs: 2,
            reconnect_max_secs: 120,
            ws_ping_interval_secs: 20,
            max_concurrent_tasks: 10,
            task_timeout_default_secs: 300,
            runtime_preference: RuntimePreference::Auto,
            metrics_interval_secs: 60,
            metrics_listen_addr: None,
            log_level: String::from_str("info"),
            log_format: LogFormat::Text,
            default_timeout_secs: 30,
            operation_timeout_overrides: Vec::new(),
            enable_cancel: true,
            data_dir,
        }
    }
}

impl Default for AgentConfig {
    /// The default configuration on this machine: the data directory is
    /// `escluse-agent` under the machine's local data directory (or under
    /// `.`), and the agent is named after the host (or `agent`).
    fn default() -> (c: Self)
        ensures
            spec_has_fixed_defaults(c),
            exists|dir: Option<Seq<char>>, host: Option<Seq<char>>| #[trigger] spec_machine_defaults(c, dir, host),
    {
        let dir = data_local_dir();
        let host = host_name();
        let c = Self::for_host(dir, host);
        assert(spec_machine_defaults(c, opt_text(dir), opt_text(host)));
        c
    }
}

} // verus!
