//! Loading settings from configuration texts and environment variables.
//!
//! Settings come from four places, applied in this order so that later ones
//! win: the TOML configuration file, the `AGENT_*` environment variables,
//! the legacy `KEY=value` file, and the `ESCLUSE_AGENT_*` environment
//! variables.

use crate::capability::lemma_text_differs;
use crate::clock::{parse_uuid, uuid_parsed};
use crate::proto::task::{clone_opt_text, opt_text};
use crate::config::schema::{AgentConfig, AgentConfigView, LogFormat, RuntimePreference, SecretString};
use crate::text::{
    chars_equal, from_chars, lowercase, parse_u64, parse_usize, spec_parse_unsigned, spec_trim, to_chars,
    to_lowercase, trim,
};
use vstd::prelude::*;

verus! {

/// The runtime a lower-case preference text names: `docker`, `podman` or
/// `none`; anything else means automatic.
pub open spec fn spec_runtime_of_lower(l: Seq<char>) -> RuntimePreference {
    if l == "docker"@ {
        RuntimePreference::Docker
    } else if l == "podman"@ {
        RuntimePreference::Podman
    } else if l == "none"@ {
        RuntimePreference::NoRuntime
    } else {
        RuntimePreference::Auto
    }
}

/// The runtime a preference text names, compared in lower case.
pub open spec fn spec_runtime_preference(value: Seq<char>) -> RuntimePreference {
    spec_runtime_of_lower(lowercase(value))
}

/// The runtime a lower-case preference text names.
pub fn runtime_of_lower(l: &str) -> (r: RuntimePreference)
    ensures
        r == spec_runtime_of_lower(l@),
{
    let l = String::from_str(l);
    if l == String::from_str("docker") {
        RuntimePreference::Docker
    } else if l == String::from_str("podman") {
        RuntimePreference::Podman
    } else if l == String::from_str("none") {
        RuntimePreference::NoRuntime
    } else {
        RuntimePreference::Auto
    }
}

/// The runtime a preference text names, compared in lower case.
pub fn parse_runtime_preference(value: &str) -> (r: RuntimePreference)
    ensures
        r == spec_runtime_preference(value@),
{
    let l = to_lowercase(value);
    runtime_of_lower(l.as_str())
}

/// The log format a lower-case text names: `json`, else text.
pub open spec fn spec_log_format_of_lower(l: Seq<char>) -> LogFormat {
    if l == "json"@ { LogFormat::Json } else { LogFormat::Text }
}

/// The log format a text names, compared in lower case.
pub open spec fn spec_log_format(value: Seq<char>) -> LogFormat {
    spec_log_format_of_lower(lowercase(value))
}

/// The log format a lower-case text names.
pub fn log_format_of_lower(l: &str) -> (r: LogFormat)
    ensures
        r == spec_log_format_of_lower(l@),
{
    if String::from_str(l) == String::from_str("json") {
        LogFormat::Json
    } else {
        LogFormat::Text
    }
}

/// The log format a text names, compared in lower case.
pub fn parse_log_format(value: &str) -> (r: LogFormat)
    ensures
        r == spec_log_format(value@),
{
    let l = to_lowercase(value);
    log_format_of_lower(l.as_str())
}

/// A setting that a variable or a file key can set.
#[derive(Debug, Clone, Copy, PartialEq, Eq, Structural)]
pub enum Setting {
    BackendUrl,
    ApiKey,
    AgentName,
    AgentId,
    HeartbeatInterval,
    ReconnectInitial,
    ReconnectMax,
    MaxConcurrent,
    TaskTimeout,
    Runtime,
    LogLevel,
    LogFormat,
    MetricsInterval,
    DataDir,
}

/// Where a setting comes from.
#[derive(Debug, Clone, Copy, PartialEq, Eq, Structural)]
pub enum Source {
    /// The `AGENT_*` environment variables.
    LegacyEnv,
    /// The legacy `KEY=value` configuration file.
    EnvFile,
    /// The `ESCLUSE_AGENT_*` environment variables.
    Env,
}

/// The setting a name sets, for each place settings come from. The
/// metrics listen address is not among them: it is a socket address, read
/// by the program around the library.
pub open spec fn spec_setting_for(source: Source, name: Seq<char>) -> Option<Setting> {
    match source {
        Source::LegacyEnv => {
            if name == "AGENT_BACKEND_URL"@ { Some(Setting::BackendUrl) }
            else if name == "AGENT_API_KEY"@ { Some(Setting::ApiKey) }
            else if name == "AGENT_NAME"@ { Some(Setting::AgentName) }
            else if name == "AGENT_ID"@ { Some(Setting::AgentId) }
            else if name == "AGENT_HEARTBEAT_INTERVAL"@ { Some(Setting::HeartbeatInterval) }
            else if name == "AGENT_MAX_CONCURRENT"@ { Some(Setting::MaxConcurrent) }
            else if name == "AGENT_RUNTIME"@ { Some(Setting::Runtime) }
            else if name == "LOG_LEVEL"@ { Some(Setting::LogLevel) }
            else if name == "AGENT_DATA_DIR"@ { Some(Setting::DataDir) }
            else { None }
        },
        Source::EnvFile => {
            if name == "AGENT_BACKEND_URL"@ { Some(Setting::BackendUrl) }
            else if name == "AGENT_API_KEY"@ { Some(Setting::ApiKey) }
            else if name == "AGENT_NAME"@ { Some(Setting::AgentName) }
            else if name == "AGENT_RUNTIME"@ { Some(Setting::Runtime) }
            else if name == "LOG_LEVEL"@ { Some(Setting::LogLevel) }
            else if name == "AGENT_DATA_DIR"@ { Some(Setting::DataDir) }
            else if name == "AGENT_HEARTBEAT_INTERVAL"@ { Some(Setting::HeartbeatInterval) }
            else if name == "AGENT_RECONNECT_INITIAL"@ { Some(Setting::ReconnectInitial) }
            else if name == "AGENT_RECONNECT_MAX"@ { Some(Setting::ReconnectMax) }
            else if name == "AGENT_MAX_CONCURRENT"@ { Some(Setting::MaxConcurrent) }
            else if name == "AGENT_TASK_TIMEOUT"@ { Some(Setting::TaskTimeout) }
            else if name == "AGENT_METRICS_INTERVAL"@ { Some(Setting::MetricsInterval) }
            else { None }
        },
        Source::Env => {
            if name == "ESCLUSE_AGENT_BACKEND_URL"@ { Some(Setting::BackendUrl) }
            else if name == "ESCLUSE_AGENT_API_KEY"@ { Some(Setting::ApiKey) }
            else if name == "ESCLUSE_AGENT_NAME"@ { Some(Setting::AgentName) }
            else if name == "ESCLUSE_AGENT_ID"@ { Some(Setting::AgentId) }
            else if name == "ESCLUSE_AGENT_HEARTBEAT_INTERVAL"@ { Some(Setting::HeartbeatInterval) }
            else if name == "ESCLUSE_AGENT_RECONNECT_INITIAL"@ { Some(Setting::ReconnectInitial) }
            else if name == "ESCLUSE_AGENT_RECONNECT_MAX"@ { Some(Setting::ReconnectMax) }
            else if name == "ESCLUSE_AGENT_MAX_CONCURRENT"@ { Some(Setting::MaxConcurrent) }
            else if name == "ESCLUSE_AGENT_TASK_TIMEOUT"@ { Some(Setting::TaskTimeout) }
            else if name == "ESCLUSE_AGENT_RUNTIME"@ { Some(Setting::Runtime) }
            else if name == "ESCLUSE_AGENT_LOG_LEVEL"@ { Some(Setting::LogLevel) }
            else if name == "ESCLUSE_AGENT_LOG_FORMAT"@ { Some(Setting::LogFormat) }
            else if name == "ESCLUSE_AGENT_METRICS_INTERVAL"@ { Some(Setting::MetricsInterval) }
            else if name == "ESCLUSE_AGENT_DATA_DIR"@ { Some(Setting::DataDir) }
            else { None }
        },
    }
}

pub fn setting_for(source: Source, name: &[char]) -> (r: Option<Setting>)
    ensures
        r == spec_setting_for(source, name@),
{
    match source {
        Source::LegacyEnv => {
            if chars_equal(name, "AGENT_BACKEND_URL") { Some(Setting::BackendUrl) }
            else if chars_equal(name, "AGENT_API_KEY") { Some(Setting::ApiKey) }
            else if chars_equal(name, "AGENT_NAME") { Some(Setting::AgentName) }
            else if chars_equal(name, "AGENT_ID") { Some(Setting::AgentId) }
            else if chars_equal(name, "AGENT_HEARTBEAT_INTERVAL") { Some(Setting::HeartbeatInterval) }
            else if chars_equal(name, "AGENT_MAX_CONCURRENT") { Some(Setting::MaxConcurrent) }
            else if chars_equal(name, "AGENT_RUNTIME") { Some(Setting::Runtime) }
            else if chars_equal(name, "LOG_LEVEL") { Some(Setting::LogLevel) }
            else if chars_equal(name, "AGENT_DATA_DIR") { Some(Setting::DataDir) }
            else { None }
        },
        Source::EnvFile => {
            if chars_equal(name, "AGENT_BACKEND_URL") { Some(Setting::BackendUrl) }
            else if chars_equal(name, "AGENT_API_KEY") { Some(Setting::ApiKey) }
            else if chars_equal(name, "AGENT_NAME") { Some(Setting::AgentName) }
            else if chars_equal(name, "AGENT_RUNTIME") { Some(Setting::Runtime) }
            else if chars_equal(name, "LOG_LEVEL") { Some(Setting::LogLevel) }
            else if chars_equal(name, "AGENT_DATA_DIR") { Some(Setting::DataDir) }
            else if chars_equal(name, "AGENT_HEARTBEAT_INTERVAL") { Some(Setting::HeartbeatInterval) }
            else if chars_equal(name, "AGENT_RECONNECT_INITIAL") { Some(Setting::ReconnectInitial) }
            else if chars_equal(name, "AGENT_RECONNECT_MAX") { Some(Setting::ReconnectMax) }
            else if chars_equal(name, "AGENT_MAX_CONCURRENT") { Some(Setting::MaxConcurrent) }
            else if chars_equal(name, "AGENT_TASK_TIMEOUT") { Some(Setting::TaskTimeout) }
            else if chars_equal(name, "AGENT_METRICS_INTERVAL") { Some(Setting::MetricsInterval) }
            else { None }
        },
        Source::Env => {
            if chars_equal(name, "ESCLUSE_AGENT_BACKEND_URL") { Some(Setting::BackendUrl) }
            else if chars_equal(name, "ESCLUSE_AGENT_API_KEY") { Some(Setting::ApiKey) }
            else if chars_equal(name, "ESCLUSE_AGENT_NAME") { Some(Setting::AgentName) }
            else if chars_equal(name, "ESCLUSE_AGENT_ID") { Some(Setting::AgentId) }
            else if chars_equal(name, "ESCLUSE_AGENT_HEARTBEAT_INTERVAL") { Some(Setting::HeartbeatInterval) }
            else if chars_equal(name, "ESCLUSE_AGENT_RECONNECT_INITIAL") { Some(Setting::ReconnectInitial) }
            else if chars_equal(name, "ESCLUSE_AGENT_RECONNECT_MAX") { Some(Setting::ReconnectMax) }
            else if chars_equal(name, "ESCLUSE_AGENT_MAX_CONCURRENT") { Some(Setting::MaxConcurrent) }
            else if chars_equal(name, "ESCLUSE_AGENT_TASK_TIMEOUT") { Some(Setting::TaskTimeout) }
            else if chars_equal(name, "ESCLUSE_AGENT_RUNTIME") { Some(Setting::Runtime) }
            else if chars_equal(name, "ESCLUSE_AGENT_LOG_LEVEL") { Some(Setting::LogLevel) }
            else if chars_equal(name, "ESCLUSE_AGENT_LOG_FORMAT") { Some(Setting::LogFormat) }
            else if chars_equal(name, "ESCLUSE_AGENT_METRICS_INTERVAL") { Some(Setting::MetricsInterval) }
            else if chars_equal(name, "ESCLUSE_AGENT_DATA_DIR") { Some(Setting::DataDir) }
            else { None }
        },
    }
}

/// The configuration after a setting is given a value. Texts are taken as
/// they are; numbers and identifiers that do not parse leave the setting
/// unchanged.
pub open spec fn spec_apply_setting(c: AgentConfigView, s: Setting, v: Seq<char>) -> AgentConfigView {
    match s {
        Setting::BackendUrl => AgentConfigView { backend_url: v, ..c },
        Setting::ApiKey => AgentConfigView { api_key: v, ..c },
        Setting::AgentName => AgentConfigView { agent_name: v, ..c },
        Setting::AgentId => match uuid_parsed(v) {
            Some(id) => AgentConfigView { agent_id: Some(id), ..c },
            None => c,
        },
        Setting::HeartbeatInterval => match spec_parse_unsigned(v, u64::MAX as nat) {
            Some(n) => AgentConfigView { heartbeat_interval_secs: n as u64, ..c },
            None => c,
        },
        Setting::ReconnectInitial => match spec_parse_unsigned(v, u64::MAX as nat) {
            Some(n) => AgentConfigView { reconnect_initial_secs: n as u64, ..c },
            None => c,
        },
        Setting::ReconnectMax => match spec_parse_unsigned(v, u64::MAX as nat) {
            Some(n) => AgentConfigView { reconnect_max_secs: n as u64, ..c },
            None => c,
        },
        Setting::MaxConcurrent => match spec_parse_unsigned(v, usize::MAX as nat) {
            Some(n) => AgentConfigView { max_concurrent_tasks: n as usize, ..c },
            None => c,
        },
        Setting::TaskTimeout => match spec_parse_unsigned(v, u64::MAX as nat) {
            Some(n) => AgentConfigView { task_timeout_default_secs: n as u64, ..c },
            None => c,
        },
        Setting::Runtime => AgentConfigView { runtime_preference: spec_runtime_preference(v), ..c },
        Setting::LogLevel => AgentConfigView { log_level: v, ..c },
        Setting::LogFormat => AgentConfigView { log_format: spec_log_format(v), ..c },
        Setting::MetricsInterval => match spec_parse_unsigned(v, u64::MAX as nat) {
            Some(n) => AgentConfigView { metrics_interval_secs: n as u64, ..c },
            None => c,
        },
        Setting::DataDir => AgentConfigView { data_dir: v, ..c },
    }
}

/// Gives a setting a value.
pub fn apply_setting(config: &mut AgentConfig, setting: Setting, value: &[char])
    ensures
        final(config)@ == spec_apply_setting(old(config)@, setting, value@),
{
    match setting {
        Setting::BackendUrl => config.backend_url = from_chars(value),
        Setting::ApiKey => config.api_key = SecretString::new(from_chars(value)),
        Setting::AgentName => config.agent_name = from_chars(value),
        Setting::AgentId => {
            let text = from_chars(value);
            match parse_uuid(text.as_str()) {
                Some(id) => config.agent_id = Some(id),
                None => {},
            }
        },
        Setting::HeartbeatInterval => match parse_u64(value) {
            Some(n) => config.heartbeat_interval_secs = n,
            None => {},
        },
        Setting::ReconnectInitial => match parse_u64(value) {
            Some(n) => config.reconnect_initial_secs = n,
            None => {},
        },
        Setting::ReconnectMax => match parse_u64(value) {
            Some(n) => config.reconnect_max_secs = n,
            None => {},
        },
        Setting::MaxConcurrent => match parse_usize(value) {
            Some(n) => config.max_concurrent_tasks = n,
            None => {},
        },
        Setting::TaskTimeout => match parse_u64(value) {
            Some(n) => config.task_timeout_default_secs = n,
            None => {},
        },
        Setting::Runtime => {
            let text = from_chars(value);
            config.runtime_preference = parse_runtime_preference(text.as_str());
        },
        Setting::LogLevel => config.log_level = from_chars(value),
        Setting::LogFormat => {
            let text = from_chars(value);
            config.log_format = parse_log_format(text.as_str());
        },
        Setting::MetricsInterval => match parse_u64(value) {
            Some(n) => config.metrics_interval_secs = n,
            None => {},
        },
        Setting::DataDir => config.data_dir = from_chars(value),
    }
}

/// The configuration after the given variables, each a name and a value,
/// are applied in turn; names that set nothing are passed over.
pub open spec fn spec_apply_vars(c: AgentConfigView, source: Source, vars: Seq<(Seq<char>, Seq<char>)>) -> AgentConfigView
    decreases vars.len(),
{
    if vars.len() == 0 {
        c
    } else {
        let before = spec_apply_vars(c, source, vars.drop_last());
        match spec_setting_for(source, vars.last().0) {
            Some(s) => spec_apply_setting(before, s, vars.last().1),
            None => before,
        }
    }
}

/// Applies environment variables (names and values) from one place.
pub fn apply_env_vars(config: &mut AgentConfig, source: Source, vars: &[(String, String)])
    ensures
        final(config)@ == spec_apply_vars(old(config)@, source, vars@.map_values(|e: (String, String)| (e.0@, e.1@))),
{
    let ghost all = vars@.map_values(|e: (String, String)| (e.0@, e.1@));
    let mut i: usize = 0;
    while i < vars.len()
        invariant
            i <= vars@.len(),
            all == vars@.map_values(|e: (String, String)| (e.0@, e.1@)),
            config@ == spec_apply_vars(old(config)@, source, all.take(i as int)),
        decreases vars@.len() - i,
    {
        assert(all.take(i + 1).drop_last() =~= all.take(i as int));
        let name = to_chars(vars[i].0.as_str());
        let value = to_chars(vars[i].1.as_str());
        match setting_for(source, name.as_slice()) {
            Some(s) => apply_setting(config, s, value.as_slice()),
            None => {},
        }
        i = i + 1;
    }
    assert(all.take(vars@.len() as int) =~= all);
}

/// The key and value of a `KEY=value` text: the texts before and after its
/// first `=`.
pub open spec fn spec_split_once_eq(s: Seq<char>) -> Option<(Seq<char>, Seq<char>)> {
    if exists|i: int| 0 <= i < s.len() && s[i] == '=' {
        let i = choose|i: int| 0 <= i < s.len() && s[i] == '=' && forall|j: int| 0 <= j < i ==> s[j] != '=';
        Some((s.subrange(0, i), s.subrange(i + 1, s.len() as int)))
    } else {
        None
    }
}

/// The configuration after one line of the legacy file: blank lines and
/// `#` comments change nothing; `KEY=value` sets the setting of the key,
/// both trimmed, when the file knows the key.
pub open spec fn spec_apply_file_line(c: AgentConfigView, line: Seq<char>) -> AgentConfigView {
    let t = spec_trim(line);
    if t.len() == 0 || t[0] == '#' {
        c
    } else {
        match spec_split_once_eq(t) {
            Some((k, v)) => match spec_setting_for(Source::EnvFile, spec_trim(k)) {
                Some(s) => spec_apply_setting(c, s, spec_trim(v)),
                None => c,
            },
            None => c,
        }
    }
}

/// Reading a file text character by character: the configuration after
/// the complete lines, and the line read so far.
pub open spec fn spec_scan_lines(c: AgentConfigView, s: Seq<char>) -> (AgentConfigView, Seq<char>)
    decreases s.len(),
{
    if s.len() == 0 {
        (c, seq![])
    } else {
        let (before, line) = spec_scan_lines(c, s.drop_last());
        if s.last() == '\n' {
            (spec_apply_file_line(before, line), seq![])
        } else {
            (before, line.push(s.last()))
        }
    }
}

/// The configuration after every line of a legacy `KEY=value` file text.
pub open spec fn spec_apply_env_file(c: AgentConfigView, contents: Seq<char>) -> AgentConfigView {
    let (before, last) = spec_scan_lines(c, contents);
    spec_apply_file_line(before, last)
}

fn split_once_eq(s: &[char]) -> (r: Option<(Vec<char>, Vec<char>)>)
    ensures
        match spec_split_once_eq(s@) {
            Some((k, v)) => r is Some && r->Some_0.0@ == k && r->Some_0.1@ == v,
            None => r is None,
        },
{
    let mut i: usize = 0;
    while i < s.len()
        invariant
            i <= s@.len(),
            forall|j: int| 0 <= j < i ==> s@[j] != '=',
        decreases s@.len() - i,
    {
        if s[i] == '=' {
            let mut k: Vec<char> = Vec::new();
            let mut j: usize = 0;
            while j < i
                invariant
                    j <= i < s@.len(),
                    k@ == s@.subrange(0, j as int),
                decreases i - j,
            {
                k.push(s[j]);
                assert(s@.subrange(0, j + 1) =~= s@.subrange(0, j as int).push(s@[j as int]));
                j = j + 1;
            }
            let mut v: Vec<char> = Vec::new();
            let mut m: usize = i + 1;
            while m < s.len()
                invariant
                    i + 1 <= m <= s@.len(),
                    v@ == s@.subrange(i + 1, m as int),
                decreases s@.len() - m,
            {
                v.push(s[m]);
                assert(s@.subrange(i + 1, m + 1) =~= s@.subrange(i + 1, m as int).push(s@[m as int]));
                m = m + 1;
            }
            proof {
                let w = choose|w: int| 0 <= w < s@.len() && s@[w] == '=' && forall|j: int| 0 <= j < w ==> s@[j] != '=';
                assert(w == i as int) by {
                    if w < i {
                    } else if w > i {
                        assert(s@[i as int] == '=');
                    }
                }
            }
            return Some((k, v));
        }
        i = i + 1;
    }
    None
}

/// Applies one line of the legacy file.
fn apply_file_line(config: &mut AgentConfig, line: &[char])
    ensures
        final(config)@ == spec_apply_file_line(old(config)@, line@),
{
    let t = trim(line);
    if t.len() == 0 || t[0] == '#' {
        return;
    }
    match split_once_eq(t.as_slice()) {
        Some((k, v)) => {
            let key = trim(k.as_slice());
            let value = trim(v.as_slice());
            match setting_for(Source::EnvFile, key.as_slice()) {
                Some(s) => apply_setting(config, s, value.as_slice()),
                None => {},
            }
        },
        None => {},
    }
}

/// Applies a legacy `KEY=value` configuration file text, line by line.
pub fn apply_env_file(config: &mut AgentConfig, contents: &str)
    ensures
        final(config)@ == spec_apply_env_file(old(config)@, contents@),
{
    let chars = to_chars(contents);
    let mut line: Vec<char> = Vec::new();
    let mut i: usize = 0;
    while i < chars.len()
        invariant
            i <= chars@.len(),
            chars@ == contents@,
            (config@, line@) == spec_scan_lines(old(config)@, chars@.take(i as int)),
        decreases chars@.len() - i,
    {
        assert(chars@.take(i + 1).drop_last() =~= chars@.take(i as int));
        let c = chars[i];
        if c == '\n' {
            apply_file_line(config, line.as_slice());
            line = Vec::new();
        } else {
            line.push(c);
        }
        i = i + 1;
    }
    assert(chars@.take(chars@.len() as int) =~= chars@);
    apply_file_line(config, line.as_slice());
}

/// The text value a TOML document gives under `[table] key`: `None` when
/// the text is not valid TOML, the table or key is absent, or the value is
/// not a string.
pub uninterp spec fn toml_text(contents: Seq<char>, table: Seq<char>, key: Seq<char>) -> Option<Seq<char>>;

/// The integer value a TOML document gives under `[table] key`: `None` when
/// the text is not valid TOML, the table or key is absent, or the value is
/// not an integer.
pub uninterp spec fn toml_integer(contents: Seq<char>, table: Seq<char>, key: Seq<char>) -> Option<i64>;

/// `str::parse::<toml::Value>`, then `Value::get` of the table and of the
/// key, then `Value::as_str`: the result is named `toml_text`.
#[verifier::external_body]
fn toml_text_at(contents: &str, table: &str, key: &str) -> (r: Option<String>)
    ensures
        opt_text(r) == toml_text(contents@, table@, key@),
{
    let doc = contents.parse::<toml::Value>().ok()?;
    doc.get(table)?.get(key)?.as_str().map(|s| s.to_string())
}

/// `str::parse::<toml::Value>`, then `Value::get` of the table and of the
/// key, then `Value::as_integer`: the result is named `toml_integer`.
#[verifier::external_body]
fn toml_integer_at(contents: &str, table: &str, key: &str) -> (r: Option<i64>)
    ensures
        r == toml_integer(contents@, table@, key@),
{
    let doc = contents.parse::<toml::Value>().ok()?;
    doc.get(table)?.get(key)?.as_integer()
}

/// The values a TOML configuration file gives, each found under its table
/// and key with the expected type.
pub struct TomlValues {
    /// `[server] backend_url`
    pub backend_url: Option<String>,
    /// `[server] api_key`
    pub api_key: Option<String>,
    /// `[agent] name`
    pub agent_name: Option<String>,
    /// `[agent] id`
    pub agent_id: Option<String>,
    /// `[connection] heartbeat_interval`
    pub heartbeat_interval: Option<i64>,
    /// `[connection] reconnect_initial`
    pub reconnect_initial: Option<i64>,
    /// `[connection] reconnect_max`
    pub reconnect_max: Option<i64>,
    /// `[task] max_concurrent`
    pub max_concurrent: Option<i64>,
    /// `[task] timeout_default`
    pub timeout_default: Option<i64>,
    /// `[runtime] preference`
    pub runtime_preference: Option<String>,
    /// `[metrics] interval`
    pub metrics_interval: Option<i64>,
    /// `[metrics] listen`
    pub metrics_listen: Option<String>,
    /// `[logging] level`
    pub log_level: Option<String>,
    /// `[logging] format`
    pub log_format: Option<String>,
    /// `[data] dir`
    pub data_dir: Option<String>,
}

/// The abstract content of the values a TOML configuration file gives.
pub struct TomlView {
    pub backend_url: Option<Seq<char>>,
    pub api_key: Option<Seq<char>>,
    pub agent_name: Option<Seq<char>>,
    pub agent_id: Option<Seq<char>>,
    pub heartbeat_interval: Option<i64>,
    pub reconnect_initial: Option<i64>,
    pub reconnect_max: Option<i64>,
    pub max_concurrent: Option<i64>,
    pub timeout_default: Option<i64>,
    pub runtime_preference: Option<Seq<char>>,
    pub metrics_interval: Option<i64>,
    pub metrics_listen: Option<Seq<char>>,
    pub log_level: Option<Seq<char>>,
    pub log_format: Option<Seq<char>>,
    pub data_dir: Option<Seq<char>>,
}

impl View for TomlValues {
    type V = TomlView;

    open spec fn view(&self) -> TomlView {
        TomlView {
            backend_url: opt_text(self.backend_url),
            api_key: opt_text(self.api_key),
            agent_name: opt_text(self.agent_name),
            agent_id: opt_text(self.agent_id),
            heartbeat_interval: self.heartbeat_interval,
            reconnect_initial: self.reconnect_initial,
            reconnect_max: self.reconnect_max,
            max_concurrent: self.max_concurrent,
            timeout_default: self.timeout_default,
            runtime_preference: opt_text(self.runtime_preference),
            metrics_interval: self.metrics_interval,
            metrics_listen: opt_text(self.metrics_listen),
            log_level: opt_text(self.log_level),
            log_format: opt_text(self.log_format),
            data_dir: opt_text(self.data_dir),
        }
    }
}

/// What the TOML text `contents` gives under each table and key.
pub open spec fn spec_toml_view(contents: Seq<char>) -> TomlView {
    TomlView {
        backend_url: toml_text(contents, "server"@, "backend_url"@),
        api_key: toml_text(contents, "server"@, "api_key"@),
        agent_name: toml_text(contents, "agent"@, "name"@),
        agent_id: toml_text(contents, "agent"@, "id"@),
        heartbeat_interval: toml_integer(contents, "connection"@, "heartbeat_interval"@),
        reconnect_initial: toml_integer(contents, "connection"@, "reconnect_initial"@),
        reconnect_max: toml_integer(contents, "connection"@, "reconnect_max"@),
        max_concurrent: toml_integer(contents, "task"@, "max_concurrent"@),
        timeout_default: toml_integer(contents, "task"@, "timeout_default"@),
        runtime_preference: toml_text(contents, "runtime"@, "preference"@),
        metrics_interval: toml_integer(contents, "metrics"@, "interval"@),
        metrics_listen: toml_text(contents, "metrics"@, "listen"@),
        log_level: toml_text(contents, "logging"@, "level"@),
        log_format: toml_text(contents, "logging"@, "format"@),
        data_dir: toml_text(contents, "data"@, "dir"@),
    }
}

/// The configuration after the identity and server values of a TOML file
/// are applied: an empty API key is passed over, and so is an identifier
/// that does not parse.
pub open spec fn spec_apply_toml_identity(c: AgentConfigView, t: TomlView) -> AgentConfigView {
    let c1 = match t.backend_url { Some(s) => AgentConfigView { backend_url: s, ..c }, None => c };
    let c2 = match t.api_key {
        Some(s) => if s.len() > 0 { AgentConfigView { api_key: s, ..c1 } } else { c1 },
        None => c1,
    };
    let c3 = match t.agent_name { Some(s) => AgentConfigView { agent_name: s, ..c2 }, None => c2 };
    match t.agent_id {
        Some(s) => match uuid_parsed(s) { Some(id) => AgentConfigView { agent_id: Some(id), ..c3 }, None => c3 },
        None => c3,
    }
}

/// The configuration after the numeric values of a TOML file are applied,
/// converted as `as` converts them.
pub open spec fn spec_apply_toml_numbers(c: AgentConfigView, t: TomlView) -> AgentConfigView {
    let c5 = match t.heartbeat_interval { Some(i) => AgentConfigView { heartbeat_interval_secs: i as u64, ..c }, None => c };
    let c6 = match t.reconnect_initial { Some(i) => AgentConfigView { reconnect_initial_secs: i as u64, ..c5 }, None => c5 };
    let c7 = match t.reconnect_max { Some(i) => AgentConfigView { reconnect_max_secs: i as u64, ..c6 }, None => c6 };
    let c8 = match t.max_concurrent { Some(i) => AgentConfigView { max_concurrent_tasks: i as usize, ..c7 }, None => c7 };
    let c9 = match t.timeout_default { Some(i) => AgentConfigView { task_timeout_default_secs: i as u64, ..c8 }, None => c8 };
    match t.metrics_interval { Some(i) => AgentConfigView { metrics_interval_secs: i as u64, ..c9 }, None => c9 }
}

/// The configuration after the runtime, logging and data values of a TOML
/// file are applied.
pub open spec fn spec_apply_toml_rest(c: AgentConfigView, t: TomlView) -> AgentConfigView {
    let c10 = match t.runtime_preference {
        Some(s) => AgentConfigView { runtime_preference: spec_runtime_preference(s), ..c },
        None => c,
    };
    let c12 = match t.log_level { Some(s) => AgentConfigView { log_level: s, ..c10 }, None => c10 };
    let c13 = match t.log_format { Some(s) => AgentConfigView { log_format: spec_log_format(s), ..c12 }, None => c12 };
    match t.data_dir { Some(s) => AgentConfigView { data_dir: s, ..c13 }, None => c13 }
}

/// The configuration after the values of a TOML file are applied.
pub open spec fn spec_apply_toml(c: AgentConfigView, t: TomlView) -> AgentConfigView {
    spec_apply_toml_rest(spec_apply_toml_numbers(spec_apply_toml_identity(c, t), t), t)
}

fn apply_toml_identity(config: &mut AgentConfig, t: &TomlValues)
    ensures
        final(config)@ == spec_apply_toml_identity(old(config)@, t@),
{
    match &t.backend_url { Some(s) => config.backend_url = s.clone(), None => {} }
    match &t.api_key {
        Some(s) => if s.unicode_len() != 0 { config.api_key = SecretString::new(s.clone()); },
        None => {},
    }
    match &t.agent_name { Some(s) => config.agent_name = s.clone(), None => {} }
    match &t.agent_id {
        Some(s) => match parse_uuid(s.as_str()) { Some(id) => config.agent_id = Some(id), None => {} },
        None => {},
    }
}

fn apply_toml_numbers(config: &mut AgentConfig, t: &TomlValues)
    ensures
        final(config)@ == spec_apply_toml_numbers(old(config)@, t@),
{
    match t.heartbeat_interval { Some(i) => config.heartbeat_interval_secs = i as u64, None => {} }
    match t.reconnect_initial { Some(i) => config.reconnect_initial_secs = i as u64, None => {} }
    match t.reconnect_max { Some(i) => config.reconnect_max_secs = i as u64, None => {} }
    match t.max_concurrent { Some(i) => config.max_concurrent_tasks = i as usize, None => {} }
    match t.timeout_default { Some(i) => config.task_timeout_default_secs = i as u64, None => {} }
    match t.metrics_interval { Some(i) => config.metrics_interval_secs = i as u64, None => {} }
}

fn apply_toml_rest(config: &mut AgentConfig, t: &TomlValues)
    ensures
        final(config)@ == spec_apply_toml_rest(old(config)@, t@),
{
    match &t.runtime_preference {
        Some(s) => config.runtime_preference = parse_runtime_preference(s.as_str()),
        None => {},
    }
    match &t.log_level { Some(s) => config.log_level = s.clone(), None => {} }
    match &t.log_format { Some(s) => config.log_format = parse_log_format(s.as_str()), None => {} }
    match &t.data_dir { Some(s) => config.data_dir = s.clone(), None => {} }
}

/// Applies the values of a TOML configuration file. The metrics listen
/// address is a socket address and is left to the caller.
pub fn apply_toml_values(config: &mut AgentConfig, t: &TomlValues)
    ensures
        final(config)@ == spec_apply_toml(old(config)@, t@),
{
    apply_toml_identity(config, t);
    apply_toml_numbers(config, t);
    apply_toml_rest(config, t);
}

/// Reads the values of a TOML configuration text.
pub fn read_toml_values(contents: &str) -> (t: TomlValues)
    ensures
        t@ == spec_toml_view(contents@),
{
    TomlValues {
        backend_url: toml_text_at(contents, "server", "backend_url"),
        api_key: toml_text_at(contents, "server", "api_key"),
        agent_name: toml_text_at(contents, "agent", "name"),
        agent_id: toml_text_at(contents, "agent", "id"),
        heartbeat_interval: toml_integer_at(contents, "connection", "heartbeat_interval"),
        reconnect_initial: toml_integer_at(contents, "connection", "reconnect_initial"),
        reconnect_max: toml_integer_at(contents, "connection", "reconnect_max"),
        max_concurrent: toml_integer_at(contents, "task", "max_concurrent"),
        timeout_default: toml_integer_at(contents, "task", "timeout_default"),
        runtime_preference: toml_text_at(contents, "runtime", "preference"),
        metrics_interval: toml_integer_at(contents, "metrics", "interval"),
        metrics_listen: toml_text_at(contents, "metrics", "listen"),
        log_level: toml_text_at(contents, "logging", "level"),
        log_format: toml_text_at(contents, "logging", "format"),
        data_dir: toml_text_at(contents, "data", "dir"),
    }
}

/// Applies a TOML configuration text and gives back the text of its
/// metrics listen address, which the caller parses as a socket address.
pub fn apply_toml(config: &mut AgentConfig, contents: &str) -> (listen: Option<String>)
    ensures
        final(config)@ == spec_apply_toml(old(config)@, spec_toml_view(contents@)),
        opt_text(listen) == spec_toml_view(contents@).metrics_listen,
{
    let t = read_toml_values(contents);
    apply_toml_values(config, &t);
    clone_opt_text(&t.metrics_listen)
}

/// Law: a later value of a text setting replaces an earlier one, whatever
/// it was, so settings applied later take precedence.
pub proof fn law_later_text_setting_wins(c: AgentConfigView, s: Setting, v1: Seq<char>, v2: Seq<char>)
    requires
        s == Setting::BackendUrl || s == Setting::ApiKey || s == Setting::AgentName || s == Setting::LogLevel
            || s == Setting::DataDir || s == Setting::Runtime || s == Setting::LogFormat,
    ensures
        spec_apply_setting(spec_apply_setting(c, s, v1), s, v2) == spec_apply_setting(c, s, v2),
{
}

/// Law: a number setting whose new value parses replaces the earlier
/// value; one whose new value does not parse keeps it.
pub proof fn law_number_setting(c: AgentConfigView, v: Seq<char>)
    ensures
        spec_parse_unsigned(v, u64::MAX as nat) matches Some(n) ==> spec_apply_setting(c, Setting::HeartbeatInterval, v).heartbeat_interval_secs == n,
        spec_parse_unsigned(v, u64::MAX as nat) is None ==> spec_apply_setting(c, Setting::HeartbeatInterval, v) == c,
{
}

/// Law: blank lines and comment lines of the legacy file change nothing.
pub proof fn law_comment_lines_ignored(c: AgentConfigView, line: Seq<char>)
    requires
        spec_trim(line).len() == 0 || spec_trim(line)[0] == '#',
    ensures
        spec_apply_file_line(c, line) == c,
{
}

/// The names and values of a list of variables.
pub open spec fn vars_view(vars: Seq<(String, String)>) -> Seq<(Seq<char>, Seq<char>)> {
    vars.map_values(|e: (String, String)| (e.0@, e.1@))
}

/// The configuration after a TOML configuration text, if there is one.
pub open spec fn spec_apply_toml_source(c: AgentConfigView, toml: Option<Seq<char>>) -> AgentConfigView {
    match toml {
        Some(t) => spec_apply_toml(c, spec_toml_view(t)),
        None => c,
    }
}

/// The configuration after a legacy settings file text, if there is one.
pub open spec fn spec_apply_env_file_source(c: AgentConfigView, env_file: Option<Seq<char>>) -> AgentConfigView {
    match env_file {
        Some(f) => spec_apply_env_file(c, f),
        None => c,
    }
}

/// The configuration after the four sources in their order of precedence:
/// the TOML file, the `AGENT_*` variables, the legacy settings file, then
/// the `ESCLUSE_AGENT_*` variables; a later source overrides an earlier one.
pub open spec fn spec_load(
    c: AgentConfigView,
    toml: Option<Seq<char>>,
    legacy_env: Seq<(Seq<char>, Seq<char>)>,
    env_file: Option<Seq<char>>,
    env: Seq<(Seq<char>, Seq<char>)>,
) -> AgentConfigView {
    spec_apply_vars(
        spec_apply_env_file_source(spec_apply_vars(spec_apply_toml_source(c, toml), Source::LegacyEnv, legacy_env), env_file),
        Source::Env,
        env,
    )
}

/// The value of the last variable called `name`, if any.
pub open spec fn spec_last_value(vars: Seq<(Seq<char>, Seq<char>)>, name: Seq<char>) -> Option<Seq<char>>
    decreases vars.len(),
{
    if vars.len() == 0 {
        None
    } else if vars.last().0 == name {
        Some(vars.last().1)
    } else {
        spec_last_value(vars.drop_last(), name)
    }
}

/// The value of the last variable called `name`, if any.
pub fn last_value(vars: &[(String, String)], name: &str) -> (r: Option<String>)
    ensures
        opt_text(r) == spec_last_value(vars_view(vars@), name@),
{
    let ghost all = vars_view(vars@);
    let wanted = String::from_str(name);
    let mut i = vars.len();
    assert(all.take(all.len() as int) =~= all);
    while i > 0
        invariant
            i <= vars@.len(),
            all == vars_view(vars@),
            wanted@ == name@,
            spec_last_value(all, name@) == spec_last_value(all.take(i as int), name@),
        decreases i,
    {
        assert(all.take(i as int).drop_last() =~= all.take(i - 1));
        if vars[i - 1].0 == wanted {
            return Some(vars[i - 1].1.clone());
        }
        i = i - 1;
    }
    None
}

/// Loads a configuration from its four sources, in order of precedence:
/// the TOML file text, the `AGENT_*` variables, the legacy settings file
/// text, then the `ESCLUSE_AGENT_*` variables. Gives back the metrics
/// listen address texts of the TOML file, of `AGENT_METRICS_LISTEN` and of
/// `ESCLUSE_AGENT_METRICS_LISTEN`, in that order of precedence, for the
/// caller to parse as socket addresses.
pub fn load_from_sources(
    config: &mut AgentConfig,
    toml: Option<&str>,
    legacy_env: &[(String, String)],
    env_file: Option<&str>,
    env: &[(String, String)],
) -> (listen: (Option<String>, Option<String>, Option<String>))
    ensures
        final(config)@ == spec_load(
            old(config)@,
            match toml {
                Some(t) => Some(t@),
                None => None,
            },
            vars_view(legacy_env@),
            match env_file {
                Some(f) => Some(f@),
                None => None,
            },
            vars_view(env@),
        ),
        opt_text(listen.0) == match toml {
            Some(t) => spec_toml_view(t@).metrics_listen,
            None => None,
        },
        opt_text(listen.1) == spec_last_value(vars_view(legacy_env@), "AGENT_METRICS_LISTEN"@),
        opt_text(listen.2) == spec_last_value(vars_view(env@), "ESCLUSE_AGENT_METRICS_LISTEN"@),
{
    let from_toml = match toml {
        Some(t) => apply_toml(config, t),
        None => None,
    };
    apply_env_vars(config, Source::LegacyEnv, legacy_env);
    let from_legacy = last_value(legacy_env, "AGENT_METRICS_LISTEN");
    match env_file {
        Some(f) => apply_env_file(config, f),
        None => {},
    }
    apply_env_vars(config, Source::Env, env);
    let from_env = last_value(env, "ESCLUSE_AGENT_METRICS_LISTEN");
    (from_toml, from_legacy, from_env)
}

/// The value a text setting holds in a configuration.
pub open spec fn spec_text_setting(c: AgentConfigView, s: Setting) -> Seq<char> {
    match s {
        Setting::BackendUrl => c.backend_url,
        Setting::ApiKey => c.api_key,
        Setting::AgentName => c.agent_name,
        Setting::LogLevel => c.log_level,
        _ => c.data_dir,
    }
}

/// Law: environment variables take precedence over the files. When the
/// last `ESCLUSE_AGENT_*` variable sets a text setting, the loaded
/// configuration holds that variable's value, whatever the TOML file, the
/// `AGENT_*` variables and the legacy settings file said.
pub proof fn law_environment_takes_precedence(
    c: AgentConfigView,
    toml: Option<Seq<char>>,
    legacy_env: Seq<(Seq<char>, Seq<char>)>,
    env_file: Option<Seq<char>>,
    env: Seq<(Seq<char>, Seq<char>)>,
    name: Seq<char>,
    value: Seq<char>,
    s: Setting,
)
    requires
        s == Setting::BackendUrl || s == Setting::ApiKey || s == Setting::AgentName || s == Setting::LogLevel
            || s == Setting::DataDir,
        spec_setting_for(Source::Env, name) == Some(s),
    ensures
        spec_text_setting(spec_load(c, toml, legacy_env, env_file, env.push((name, value))), s) == value,
{
    assert(env.push((name, value)).drop_last() =~= env);
}

/// The part of a setting's variable names after their prefix, such as
/// `TASK_TIMEOUT`.
pub open spec fn spec_setting_key(s: Setting) -> Seq<char> {
    match s {
        Setting::BackendUrl => "BACKEND_URL"@,
        Setting::ApiKey => "API_KEY"@,
        Setting::AgentName => "NAME"@,
        Setting::AgentId => "ID"@,
        Setting::HeartbeatInterval => "HEARTBEAT_INTERVAL"@,
        Setting::ReconnectInitial => "RECONNECT_INITIAL"@,
        Setting::ReconnectMax => "RECONNECT_MAX"@,
        Setting::MaxConcurrent => "MAX_CONCURRENT"@,
        Setting::TaskTimeout => "TASK_TIMEOUT"@,
        Setting::Runtime => "RUNTIME"@,
        Setting::LogLevel => "LOG_LEVEL"@,
        Setting::LogFormat => "LOG_FORMAT"@,
        Setting::MetricsInterval => "METRICS_INTERVAL"@,
        Setting::DataDir => "DATA_DIR"@,
    }
}

/// The name a setting has among the `AGENT_*` variables and in the legacy
/// file: `AGENT_` and its key, but `LOG_LEVEL` for the log level.
pub open spec fn spec_legacy_name(s: Setting) -> Seq<char> {
    if s == Setting::LogLevel { "LOG_LEVEL"@ } else { "AGENT_"@ + spec_setting_key(s) }
}

/// Law: an `ESCLUSE_AGENT_*` variable sets the setting its name names:
/// the name is `ESCLUSE_AGENT_` followed by that setting's key.
pub proof fn law_env_variable_names_its_setting(name: Seq<char>, s: Setting)
    requires
        spec_setting_for(Source::Env, name) == Some(s),
    ensures
        name == "ESCLUSE_AGENT_"@ + spec_setting_key(s),
{
    if name == "ESCLUSE_AGENT_BACKEND_URL"@ { reveal_strlit("ESCLUSE_AGENT_BACKEND_URL"); reveal_strlit("ESCLUSE_AGENT_"); reveal_strlit("BACKEND_URL"); assert("ESCLUSE_AGENT_BACKEND_URL"@ =~= "ESCLUSE_AGENT_"@ + "BACKEND_URL"@); }
    else if name == "ESCLUSE_AGENT_API_KEY"@ { reveal_strlit("ESCLUSE_AGENT_API_KEY"); reveal_strlit("ESCLUSE_AGENT_"); reveal_strlit("API_KEY"); assert("ESCLUSE_AGENT_API_KEY"@ =~= "ESCLUSE_AGENT_"@ + "API_KEY"@); }
    else if name == "ESCLUSE_AGENT_NAME"@ { reveal_strlit("ESCLUSE_AGENT_NAME"); reveal_strlit("ESCLUSE_AGENT_"); reveal_strlit("NAME"); assert("ESCLUSE_AGENT_NAME"@ =~= "ESCLUSE_AGENT_"@ + "NAME"@); }
    else if name == "ESCLUSE_AGENT_ID"@ { reveal_strlit("ESCLUSE_AGENT_ID"); reveal_strlit("ESCLUSE_AGENT_"); reveal_strlit("ID"); assert("ESCLUSE_AGENT_ID"@ =~= "ESCLUSE_AGENT_"@ + "ID"@); }
    else if name == "ESCLUSE_AGENT_HEARTBEAT_INTERVAL"@ { reveal_strlit("ESCLUSE_AGENT_HEARTBEAT_INTERVAL"); reveal_strlit("ESCLUSE_AGENT_"); reveal_strlit("HEARTBEAT_INTERVAL"); assert("ESCLUSE_AGENT_HEARTBEAT_INTERVAL"@ =~= "ESCLUSE_AGENT_"@ + "HEARTBEAT_INTERVAL"@); }
    else if name == "ESCLUSE_AGENT_RECONNECT_INITIAL"@ { reveal_strlit("ESCLUSE_AGENT_RECONNECT_INITIAL"); reveal_strlit("ESCLUSE_AGENT_"); reveal_strlit("RECONNECT_INITIAL"); assert("ESCLUSE_AGENT_RECONNECT_INITIAL"@ =~= "ESCLUSE_AGENT_"@ + "RECONNECT_INITIAL"@); }
    else if name == "ESCLUSE_AGENT_RECONNECT_MAX"@ { reveal_strlit("ESCLUSE_AGENT_RECONNECT_MAX"); reveal_strlit("ESCLUSE_AGENT_"); reveal_strlit("RECONNECT_MAX"); assert("ESCLUSE_AGENT_RECONNECT_MAX"@ =~= "ESCLUSE_AGENT_"@ + "RECONNECT_MAX"@); }
    else if name == "ESCLUSE_AGENT_MAX_CONCURRENT"@ { reveal_strlit("ESCLUSE_AGENT_MAX_CONCURRENT"); reveal_strlit("ESCLUSE_AGENT_"); reveal_strlit("MAX_CONCURRENT"); assert("ESCLUSE_AGENT_MAX_CONCURRENT"@ =~= "ESCLUSE_AGENT_"@ + "MAX_CONCURRENT"@); }
    else if name == "ESCLUSE_AGENT_TASK_TIMEOUT"@ { reveal_strlit("ESCLUSE_AGENT_TASK_TIMEOUT"); reveal_strlit("ESCLUSE_AGENT_"); reveal_strlit("TASK_TIMEOUT"); assert("ESCLUSE_AGENT_TASK_TIMEOUT"@ =~= "ESCLUSE_AGENT_"@ + "TASK_TIMEOUT"@); }
    else if name == "ESCLUSE_AGENT_RUNTIME"@ { reveal_strlit("ESCLUSE_AGENT_RUNTIME"); reveal_strlit("ESCLUSE_AGENT_"); reveal_strlit("RUNTIME"); assert("ESCLUSE_AGENT_RUNTIME"@ =~= "ESCLUSE_AGENT_"@ + "RUNTIME"@); }
    else if name == "ESCLUSE_AGENT_LOG_LEVEL"@ { reveal_strlit("ESCLUSE_AGENT_LOG_LEVEL"); reveal_strlit("ESCLUSE_AGENT_"); reveal_strlit("LOG_LEVEL"); assert("ESCLUSE_AGENT_LOG_LEVEL"@ =~= "ESCLUSE_AGENT_"@ + "LOG_LEVEL"@); }
    else if name == "ESCLUSE_AGENT_LOG_FORMAT"@ { reveal_strlit("ESCLUSE_AGENT_LOG_FORMAT"); reveal_strlit("ESCLUSE_AGENT_"); reveal_strlit("LOG_FORMAT"); assert("ESCLUSE_AGENT_LOG_FORMAT"@ =~= "ESCLUSE_AGENT_"@ + "LOG_FORMAT"@); }
    else if name == "ESCLUSE_AGENT_METRICS_INTERVAL"@ { reveal_strlit("ESCLUSE_AGENT_METRICS_INTERVAL"); reveal_strlit("ESCLUSE_AGENT_"); reveal_strlit("METRICS_INTERVAL"); assert("ESCLUSE_AGENT_METRICS_INTERVAL"@ =~= "ESCLUSE_AGENT_"@ + "METRICS_INTERVAL"@); }
    else if name == "ESCLUSE_AGENT_DATA_DIR"@ { reveal_strlit("ESCLUSE_AGENT_DATA_DIR"); reveal_strlit("ESCLUSE_AGENT_"); reveal_strlit("DATA_DIR"); assert("ESCLUSE_AGENT_DATA_DIR"@ =~= "ESCLUSE_AGENT_"@ + "DATA_DIR"@); }
}

/// Law: every setting has its `ESCLUSE_AGENT_*` variable, which sets it.
pub proof fn law_each_setting_has_env_variable(s: Setting)
    ensures
        spec_setting_for(Source::Env, "ESCLUSE_AGENT_"@ + spec_setting_key(s)) == Some(s),
{
    reveal_strlit("ESCLUSE_AGENT_");
    reveal_strlit("ESCLUSE_AGENT_BACKEND_URL");
    reveal_strlit("ESCLUSE_AGENT_API_KEY");
    reveal_strlit("ESCLUSE_AGENT_NAME");
    reveal_strlit("ESCLUSE_AGENT_ID");
    reveal_strlit("ESCLUSE_AGENT_HEARTBEAT_INTERVAL");
    reveal_strlit("ESCLUSE_AGENT_RECONNECT_INITIAL");
    reveal_strlit("ESCLUSE_AGENT_RECONNECT_MAX");
    reveal_strlit("ESCLUSE_AGENT_MAX_CONCURRENT");
    reveal_strlit("ESCLUSE_AGENT_TASK_TIMEOUT");
    reveal_strlit("ESCLUSE_AGENT_RUNTIME");
    reveal_strlit("ESCLUSE_AGENT_LOG_LEVEL");
    reveal_strlit("ESCLUSE_AGENT_LOG_FORMAT");
    reveal_strlit("ESCLUSE_AGENT_METRICS_INTERVAL");
    reveal_strlit("ESCLUSE_AGENT_DATA_DIR");
    match s {
        Setting::BackendUrl => {
            reveal_strlit("BACKEND_URL");
            assert("ESCLUSE_AGENT_"@ + "BACKEND_URL"@ =~= "ESCLUSE_AGENT_BACKEND_URL"@);
        },
        Setting::ApiKey => {
            reveal_strlit("API_KEY");
            assert("ESCLUSE_AGENT_"@ + "API_KEY"@ =~= "ESCLUSE_AGENT_API_KEY"@);
        },
        Setting::AgentName => {
            reveal_strlit("NAME");
            assert("ESCLUSE_AGENT_"@ + "NAME"@ =~= "ESCLUSE_AGENT_NAME"@);
        },
        Setting::AgentId => {
            reveal_strlit("ID");
            assert("ESCLUSE_AGENT_"@ + "ID"@ =~= "ESCLUSE_AGENT_ID"@);
        },
        Setting::HeartbeatInterval => {
            reveal_strlit("HEARTBEAT_INTERVAL");
            assert("ESCLUSE_AGENT_"@ + "HEARTBEAT_INTERVAL"@ =~= "ESCLUSE_AGENT_HEARTBEAT_INTERVAL"@);
        },
        Setting::ReconnectInitial => {
            reveal_strlit("RECONNECT_INITIAL");
            assert("ESCLUSE_AGENT_"@ + "RECONNECT_INITIAL"@ =~= "ESCLUSE_AGENT_RECONNECT_INITIAL"@);
        },
        Setting::ReconnectMax => {
            reveal_strlit("RECONNECT_MAX");
            assert("ESCLUSE_AGENT_"@ + "RECONNECT_MAX"@ =~= "ESCLUSE_AGENT_RECONNECT_MAX"@);
        },
        Setting::MaxConcurrent => {
            reveal_strlit("MAX_CONCURRENT");
            assert("ESCLUSE_AGENT_"@ + "MAX_CONCURRENT"@ =~= "ESCLUSE_AGENT_MAX_CONCURRENT"@);
        },
        Setting::TaskTimeout => {
            reveal_strlit("TASK_TIMEOUT");
            assert("ESCLUSE_AGENT_"@ + "TASK_TIMEOUT"@ =~= "ESCLUSE_AGENT_TASK_TIMEOUT"@);
        },
        Setting::Runtime => {
            reveal_strlit("RUNTIME");
            assert("ESCLUSE_AGENT_"@ + "RUNTIME"@ =~= "ESCLUSE_AGENT_RUNTIME"@);
            lemma_text_differs("ESCLUSE_AGENT_RUNTIME"@, "ESCLUSE_AGENT_API_KEY"@, 14);
        },
        Setting::LogLevel => {
            reveal_strlit("LOG_LEVEL");
            assert("ESCLUSE_AGENT_"@ + "LOG_LEVEL"@ =~= "ESCLUSE_AGENT_LOG_LEVEL"@);
        },
        Setting::LogFormat => {
            reveal_strlit("LOG_FORMAT");
            assert("ESCLUSE_AGENT_"@ + "LOG_FORMAT"@ =~= "ESCLUSE_AGENT_LOG_FORMAT"@);
        },
        Setting::MetricsInterval => {
            reveal_strlit("METRICS_INTERVAL");
            assert("ESCLUSE_AGENT_"@ + "METRICS_INTERVAL"@ =~= "ESCLUSE_AGENT_METRICS_INTERVAL"@);
        },
        Setting::DataDir => {
            reveal_strlit("DATA_DIR");
            assert("ESCLUSE_AGENT_"@ + "DATA_DIR"@ =~= "ESCLUSE_AGENT_DATA_DIR"@);
        },
    }
}

/// Law: an `AGENT_*` variable or a legacy file key sets the setting its
/// name names: `AGENT_` followed by the setting's key, or `LOG_LEVEL`.
pub proof fn law_legacy_name_names_its_setting(source: Source, name: Seq<char>, s: Setting)
    requires
        source != Source::Env,
        spec_setting_for(source, name) == Some(s),
    ensures
        name == spec_legacy_name(s),
{
    reveal_strlit("AGENT_API_KEY");
    reveal_strlit("AGENT_BACKEND_URL");
    reveal_strlit("AGENT_DATA_DIR");
    reveal_strlit("AGENT_HEARTBEAT_INTERVAL");
    reveal_strlit("AGENT_ID");
    reveal_strlit("AGENT_MAX_CONCURRENT");
    reveal_strlit("AGENT_METRICS_INTERVAL");
    reveal_strlit("AGENT_NAME");
    reveal_strlit("AGENT_RECONNECT_INITIAL");
    reveal_strlit("AGENT_RECONNECT_MAX");
    reveal_strlit("AGENT_RUNTIME");
    reveal_strlit("AGENT_TASK_TIMEOUT");
    reveal_strlit("LOG_LEVEL");
    lemma_text_differs("AGENT_RUNTIME"@, "AGENT_API_KEY"@, 6);
    lemma_text_differs("AGENT_API_KEY"@, "AGENT_RUNTIME"@, 6);
    if name == "AGENT_API_KEY"@ { reveal_strlit("AGENT_API_KEY"); reveal_strlit("AGENT_"); reveal_strlit("API_KEY"); assert("AGENT_API_KEY"@ =~= "AGENT_"@ + "API_KEY"@); }
    else if name == "AGENT_BACKEND_URL"@ { reveal_strlit("AGENT_BACKEND_URL"); reveal_strlit("AGENT_"); reveal_strlit("BACKEND_URL"); assert("AGENT_BACKEND_URL"@ =~= "AGENT_"@ + "BACKEND_URL"@); }
    else if name == "AGENT_DATA_DIR"@ { reveal_strlit("AGENT_DATA_DIR"); reveal_strlit("AGENT_"); reveal_strlit("DATA_DIR"); assert("AGENT_DATA_DIR"@ =~= "AGENT_"@ + "DATA_DIR"@); }
    else if name == "AGENT_HEARTBEAT_INTERVAL"@ { reveal_strlit("AGENT_HEARTBEAT_INTERVAL"); reveal_strlit("AGENT_"); reveal_strlit("HEARTBEAT_INTERVAL"); assert("AGENT_HEARTBEAT_INTERVAL"@ =~= "AGENT_"@ + "HEARTBEAT_INTERVAL"@); }
    else if name == "AGENT_ID"@ { reveal_strlit("AGENT_ID"); reveal_strlit("AGENT_"); reveal_strlit("ID"); assert("AGENT_ID"@ =~= "AGENT_"@ + "ID"@); }
    else if name == "AGENT_MAX_CONCURRENT"@ { reveal_strlit("AGENT_MAX_CONCURRENT"); reveal_strlit("AGENT_"); reveal_strlit("MAX_CONCURRENT"); assert("AGENT_MAX_CONCURRENT"@ =~= "AGENT_"@ + "MAX_CONCURRENT"@); }
    else if name == "AGENT_METRICS_INTERVAL"@ { reveal_strlit("AGENT_METRICS_INTERVAL"); reveal_strlit("AGENT_"); reveal_strlit("METRICS_INTERVAL"); assert("AGENT_METRICS_INTERVAL"@ =~= "AGENT_"@ + "METRICS_INTERVAL"@); }
    else if name == "AGENT_NAME"@ { reveal_strlit("AGENT_NAME"); reveal_strlit("AGENT_"); reveal_strlit("NAME"); assert("AGENT_NAME"@ =~= "AGENT_"@ + "NAME"@); }
    else if name == "AGENT_RECONNECT_INITIAL"@ { reveal_strlit("AGENT_RECONNECT_INITIAL"); reveal_strlit("AGENT_"); reveal_strlit("RECONNECT_INITIAL"); assert("AGENT_RECONNECT_INITIAL"@ =~= "AGENT_"@ + "RECONNECT_INITIAL"@); }
    else if name == "AGENT_RECONNECT_MAX"@ { reveal_strlit("AGENT_RECONNECT_MAX"); reveal_strlit("AGENT_"); reveal_strlit("RECONNECT_MAX"); assert("AGENT_RECONNECT_MAX"@ =~= "AGENT_"@ + "RECONNECT_MAX"@); }
    else if name == "AGENT_RUNTIME"@ { reveal_strlit("AGENT_RUNTIME"); reveal_strlit("AGENT_"); reveal_strlit("RUNTIME"); assert("AGENT_RUNTIME"@ =~= "AGENT_"@ + "RUNTIME"@); }
    else if name == "AGENT_TASK_TIMEOUT"@ { reveal_strlit("AGENT_TASK_TIMEOUT"); reveal_strlit("AGENT_"); reveal_strlit("TASK_TIMEOUT"); assert("AGENT_TASK_TIMEOUT"@ =~= "AGENT_"@ + "TASK_TIMEOUT"@); }
    else if name == "LOG_LEVEL"@ {  }
}

/// Law: every setting the `AGENT_*` variables know is set by its legacy
/// name, and so is every setting the legacy file knows.
pub proof fn law_legacy_names_set_their_settings()
    ensures
        spec_setting_for(Source::LegacyEnv, spec_legacy_name(Setting::BackendUrl)) == Some(Setting::BackendUrl),
        spec_setting_for(Source::LegacyEnv, spec_legacy_name(Setting::ApiKey)) == Some(Setting::ApiKey),
        spec_setting_for(Source::LegacyEnv, spec_legacy_name(Setting::AgentName)) == Some(Setting::AgentName),
        spec_setting_for(Source::LegacyEnv, spec_legacy_name(Setting::AgentId)) == Some(Setting::AgentId),
        spec_setting_for(Source::LegacyEnv, spec_legacy_name(Setting::HeartbeatInterval)) == Some(Setting::HeartbeatInterval),
        spec_setting_for(Source::LegacyEnv, spec_legacy_name(Setting::MaxConcurrent)) == Some(Setting::MaxConcurrent),
        spec_setting_for(Source::LegacyEnv, spec_legacy_name(Setting::Runtime)) == Some(Setting::Runtime),
        spec_setting_for(Source::LegacyEnv, spec_legacy_name(Setting::LogLevel)) == Some(Setting::LogLevel),
        spec_setting_for(Source::LegacyEnv, spec_legacy_name(Setting::DataDir)) == Some(Setting::DataDir),
        spec_setting_for(Source::EnvFile, spec_legacy_name(Setting::BackendUrl)) == Some(Setting::BackendUrl),
        spec_setting_for(Source::EnvFile, spec_legacy_name(Setting::ApiKey)) == Some(Setting::ApiKey),
        spec_setting_for(Source::EnvFile, spec_legacy_name(Setting::AgentName)) == Some(Setting::AgentName),
        spec_setting_for(Source::EnvFile, spec_legacy_name(Setting::Runtime)) == Some(Setting::Runtime),
        spec_setting_for(Source::EnvFile, spec_legacy_name(Setting::LogLevel)) == Some(Setting::LogLevel),
        spec_setting_for(Source::EnvFile, spec_legacy_name(Setting::DataDir)) == Some(Setting::DataDir),
        spec_setting_for(Source::EnvFile, spec_legacy_name(Setting::HeartbeatInterval)) == Some(Setting::HeartbeatInterval),
        spec_setting_for(Source::EnvFile, spec_legacy_name(Setting::ReconnectInitial)) == Some(Setting::ReconnectInitial),
        spec_setting_for(Source::EnvFile, spec_legacy_name(Setting::ReconnectMax)) == Some(Setting::ReconnectMax),
        spec_setting_for(Source::EnvFile, spec_legacy_name(Setting::MaxConcurrent)) == Some(Setting::MaxConcurrent),
        spec_setting_for(Source::EnvFile, spec_legacy_name(Setting::TaskTimeout)) == Some(Setting::TaskTimeout),
        spec_setting_for(Source::EnvFile, spec_legacy_name(Setting::MetricsInterval)) == Some(Setting::MetricsInterval),
{
    reveal_strlit("AGENT_");
    reveal_strlit("AGENT_API_KEY");
    reveal_strlit("AGENT_BACKEND_URL");
    reveal_strlit("AGENT_DATA_DIR");
    reveal_strlit("AGENT_HEARTBEAT_INTERVAL");
    reveal_strlit("AGENT_ID");
    reveal_strlit("AGENT_MAX_CONCURRENT");
    reveal_strlit("AGENT_METRICS_INTERVAL");
    reveal_strlit("AGENT_NAME");
    reveal_strlit("AGENT_RECONNECT_INITIAL");
    reveal_strlit("AGENT_RECONNECT_MAX");
    reveal_strlit("AGENT_RUNTIME");
    reveal_strlit("AGENT_TASK_TIMEOUT");
    reveal_strlit("LOG_LEVEL");
    reveal_strlit("API_KEY"); assert("AGENT_"@ + "API_KEY"@ =~= "AGENT_API_KEY"@);
    reveal_strlit("BACKEND_URL"); assert("AGENT_"@ + "BACKEND_URL"@ =~= "AGENT_BACKEND_URL"@);
    reveal_strlit("DATA_DIR"); assert("AGENT_"@ + "DATA_DIR"@ =~= "AGENT_DATA_DIR"@);
    reveal_strlit("HEARTBEAT_INTERVAL"); assert("AGENT_"@ + "HEARTBEAT_INTERVAL"@ =~= "AGENT_HEARTBEAT_INTERVAL"@);
    reveal_strlit("ID"); assert("AGENT_"@ + "ID"@ =~= "AGENT_ID"@);
    reveal_strlit("MAX_CONCURRENT"); assert("AGENT_"@ + "MAX_CONCURRENT"@ =~= "AGENT_MAX_CONCURRENT"@);
    reveal_strlit("METRICS_INTERVAL"); assert("AGENT_"@ + "METRICS_INTERVAL"@ =~= "AGENT_METRICS_INTERVAL"@);
    reveal_strlit("NAME"); assert("AGENT_"@ + "NAME"@ =~= "AGENT_NAME"@);
    reveal_strlit("RECONNECT_INITIAL"); assert("AGENT_"@ + "RECONNECT_INITIAL"@ =~= "AGENT_RECONNECT_INITIAL"@);
    reveal_strlit("RECONNECT_MAX"); assert("AGENT_"@ + "RECONNECT_MAX"@ =~= "AGENT_RECONNECT_MAX"@);
    reveal_strlit("RUNTIME"); assert("AGENT_"@ + "RUNTIME"@ =~= "AGENT_RUNTIME"@);
    reveal_strlit("TASK_TIMEOUT"); assert("AGENT_"@ + "TASK_TIMEOUT"@ =~= "AGENT_TASK_TIMEOUT"@);
    lemma_text_differs("AGENT_RUNTIME"@, "AGENT_API_KEY"@, 6);
    lemma_text_differs("AGENT_API_KEY"@, "AGENT_RUNTIME"@, 6);
}

} // verus!
