//! Which source decides each setting of a loaded configuration.
//!
//! Every source either leaves a setting as the earlier sources left it or
//! decides it, whatever they left; so a setting holds what the
//! highest-precedence source that sets it gives.

use crate::clock::uuid_parsed;
use crate::config::loader::{
    spec_apply_env_file, spec_apply_env_file_source, spec_apply_file_line, spec_apply_setting, spec_apply_toml,
    spec_apply_toml_identity, spec_apply_toml_numbers, spec_apply_toml_rest, spec_apply_toml_source, spec_apply_vars, spec_load, spec_scan_lines, spec_setting_for, spec_split_once_eq,
    spec_toml_view, Setting, Source, TomlView,
};
use crate::config::schema::AgentConfigView;
use crate::text::{spec_parse_unsigned, spec_trim};
use vstd::prelude::*;

verus! {

/// Whether two configurations hold the same value for a setting.
pub open spec fn spec_same_setting(a: AgentConfigView, b: AgentConfigView, s: Setting) -> bool {
    match s {
        Setting::BackendUrl => a.backend_url == b.backend_url,
        Setting::ApiKey => a.api_key == b.api_key,
        Setting::AgentName => a.agent_name == b.agent_name,
        Setting::AgentId => a.agent_id == b.agent_id,
        Setting::HeartbeatInterval => a.heartbeat_interval_secs == b.heartbeat_interval_secs,
        Setting::ReconnectInitial => a.reconnect_initial_secs == b.reconnect_initial_secs,
        Setting::ReconnectMax => a.reconnect_max_secs == b.reconnect_max_secs,
        Setting::MaxConcurrent => a.max_concurrent_tasks == b.max_concurrent_tasks,
        Setting::TaskTimeout => a.task_timeout_default_secs == b.task_timeout_default_secs,
        Setting::Runtime => a.runtime_preference == b.runtime_preference,
        Setting::LogLevel => a.log_level == b.log_level,
        Setting::LogFormat => a.log_format == b.log_format,
        Setting::MetricsInterval => a.metrics_interval_secs == b.metrics_interval_secs,
        Setting::DataDir => a.data_dir == b.data_dir,
    }
}

/// Whether a value, given to a setting by a variable or a file line, is
/// taken: texts always are; an identifier or a number only when it parses.
pub open spec fn spec_value_taken(s: Setting, v: Seq<char>) -> bool {
    match s {
        Setting::AgentId => uuid_parsed(v) is Some,
        Setting::HeartbeatInterval => spec_parse_unsigned(v, u64::MAX as nat) is Some,
        Setting::ReconnectInitial => spec_parse_unsigned(v, u64::MAX as nat) is Some,
        Setting::ReconnectMax => spec_parse_unsigned(v, u64::MAX as nat) is Some,
        Setting::MaxConcurrent => spec_parse_unsigned(v, usize::MAX as nat) is Some,
        Setting::TaskTimeout => spec_parse_unsigned(v, u64::MAX as nat) is Some,
        Setting::MetricsInterval => spec_parse_unsigned(v, u64::MAX as nat) is Some,
        _ => true,
    }
}

/// Whether some variable of `vars` sets `s` with a value that is taken.
pub open spec fn spec_vars_set(source: Source, vars: Seq<(Seq<char>, Seq<char>)>, s: Setting) -> bool {
    exists|i: int|
        0 <= i < vars.len() && #[trigger] spec_setting_for(source, vars[i].0) == Some(s) && spec_value_taken(s, vars[i].1)
}

/// Whether a line of the legacy file sets `s` with a value that is taken.
pub open spec fn spec_line_sets(line: Seq<char>, s: Setting) -> bool {
    let t = spec_trim(line);
    &&& !(t.len() == 0 || t[0] == '#')
    &&& spec_split_once_eq(t) matches Some((k, v))
    &&& spec_setting_for(Source::EnvFile, spec_trim(k)) == Some(s)
    &&& spec_value_taken(s, spec_trim(v))
}

/// Reading a file text character by character: whether a complete line
/// sets `s`, and the line read so far.
pub open spec fn spec_scan_sets(contents: Seq<char>, s: Setting) -> (bool, Seq<char>)
    decreases contents.len(),
{
    if contents.len() == 0 {
        (false, seq![])
    } else {
        let (set, line) = spec_scan_sets(contents.drop_last(), s);
        if contents.last() == '\n' {
            (set || spec_line_sets(line, s), seq![])
        } else {
            (set, line.push(contents.last()))
        }
    }
}

/// Whether some line of a legacy file text sets `s` with a value that is
/// taken.
pub open spec fn spec_file_sets(contents: Option<Seq<char>>, s: Setting) -> bool {
    match contents {
        Some(f) => {
            let (set, last) = spec_scan_sets(f, s);
            set || spec_line_sets(last, s)
        },
        None => false,
    }
}

/// Whether the values of a TOML file set `s`: the key is present (a text
/// for a text setting, an integer for a number), the API key is not empty,
/// and the identifier parses.
pub open spec fn spec_toml_sets(t: TomlView, s: Setting) -> bool {
    match s {
        Setting::BackendUrl => t.backend_url is Some,
        Setting::ApiKey => t.api_key matches Some(k) && k.len() > 0,
        Setting::AgentName => t.agent_name is Some,
        Setting::AgentId => t.agent_id matches Some(v) && uuid_parsed(v) is Some,
        Setting::HeartbeatInterval => t.heartbeat_interval is Some,
        Setting::ReconnectInitial => t.reconnect_initial is Some,
        Setting::ReconnectMax => t.reconnect_max is Some,
        Setting::MaxConcurrent => t.max_concurrent is Some,
        Setting::TaskTimeout => t.timeout_default is Some,
        Setting::Runtime => t.runtime_preference is Some,
        Setting::LogLevel => t.log_level is Some,
        Setting::LogFormat => t.log_format is Some,
        Setting::MetricsInterval => t.metrics_interval is Some,
        Setting::DataDir => t.data_dir is Some,
    }
}

/// Whether a TOML file text, if there is one, sets `s`.
pub open spec fn spec_toml_source_sets(toml: Option<Seq<char>>, s: Setting) -> bool {
    match toml {
        Some(t) => spec_toml_sets(spec_toml_view(t), s),
        None => false,
    }
}

proof fn lemma_setting_step(c1: AgentConfigView, c2: AgentConfigView, s: Setting, t: Setting, v: Seq<char>)
    ensures
        spec_same_setting(c1, c2, s) ==> spec_same_setting(spec_apply_setting(c1, t, v), spec_apply_setting(c2, t, v), s),
        !(t == s && spec_value_taken(s, v)) ==> spec_same_setting(spec_apply_setting(c1, t, v), c1, s),
        t == s && spec_value_taken(s, v) ==> spec_same_setting(spec_apply_setting(c1, t, v), spec_apply_setting(c2, t, v), s),
{
    match t {
        Setting::BackendUrl => {},
        Setting::ApiKey => {},
        Setting::AgentName => {},
        Setting::AgentId => {},
        Setting::HeartbeatInterval => {},
        Setting::ReconnectInitial => {},
        Setting::ReconnectMax => {},
        Setting::MaxConcurrent => {},
        Setting::TaskTimeout => {},
        Setting::Runtime => {},
        Setting::LogLevel => {},
        Setting::LogFormat => {},
        Setting::MetricsInterval => {},
        Setting::DataDir => {},
    }
}

proof fn lemma_same_trans(a: AgentConfigView, b: AgentConfigView, c: AgentConfigView, s: Setting)
    requires
        spec_same_setting(a, b, s),
        spec_same_setting(b, c, s),
    ensures
        spec_same_setting(a, c, s),
{
}

proof fn lemma_vars(c1: AgentConfigView, c2: AgentConfigView, source: Source, vars: Seq<(Seq<char>, Seq<char>)>, s: Setting)
    ensures
        spec_same_setting(c1, c2, s) ==> spec_same_setting(spec_apply_vars(c1, source, vars), spec_apply_vars(c2, source, vars), s),
        !spec_vars_set(source, vars, s) ==> spec_same_setting(spec_apply_vars(c1, source, vars), c1, s),
        spec_vars_set(source, vars, s) ==> spec_same_setting(spec_apply_vars(c1, source, vars), spec_apply_vars(c2, source, vars), s),
    decreases vars.len(),
{
    if vars.len() > 0 {
        let rest = vars.drop_last();
        let (name, v) = vars.last();
        lemma_vars(c1, c2, source, rest, s);
        let a1 = spec_apply_vars(c1, source, rest);
        let a2 = spec_apply_vars(c2, source, rest);
        match spec_setting_for(source, name) {
            Some(t) => {
                lemma_setting_step(a1, a2, s, t, v);
                lemma_setting_step(a1, a1, s, t, v);
            },
            None => {},
        }
        if spec_vars_set(source, rest, s) {
            let i = choose|i: int|
                0 <= i < rest.len() && #[trigger] spec_setting_for(source, rest[i].0) == Some(s) && spec_value_taken(s, rest[i].1);
            assert(vars[i] == rest[i]);
        }
        if spec_vars_set(source, vars, s) && !spec_vars_set(source, rest, s) {
            let i = choose|i: int|
                0 <= i < vars.len() && #[trigger] spec_setting_for(source, vars[i].0) == Some(s) && spec_value_taken(s, vars[i].1);
            if i < rest.len() {
                assert(rest[i] == vars[i]);
            }
        }
        if !spec_vars_set(source, vars, s) {
            assert forall|i: int| 0 <= i < rest.len() implies !(#[trigger] spec_setting_for(source, rest[i].0) == Some(s)
                && spec_value_taken(s, rest[i].1)) by {
                assert(vars[i] == rest[i]);
            }
            assert(!(spec_setting_for(source, vars[vars.len() - 1].0) == Some(s) && spec_value_taken(s, vars[vars.len() - 1].1)));
        }
    }
}

proof fn lemma_line(c1: AgentConfigView, c2: AgentConfigView, line: Seq<char>, s: Setting)
    ensures
        spec_same_setting(c1, c2, s) ==> spec_same_setting(spec_apply_file_line(c1, line), spec_apply_file_line(c2, line), s),
        !spec_line_sets(line, s) ==> spec_same_setting(spec_apply_file_line(c1, line), c1, s),
        spec_line_sets(line, s) ==> spec_same_setting(spec_apply_file_line(c1, line), spec_apply_file_line(c2, line), s),
{
    let t = spec_trim(line);
    if !(t.len() == 0 || t[0] == '#') {
        match spec_split_once_eq(t) {
            Some((k, v)) => match spec_setting_for(Source::EnvFile, spec_trim(k)) {
                Some(u) => {
                    lemma_setting_step(c1, c2, s, u, spec_trim(v));
                    lemma_setting_step(c1, c1, s, u, spec_trim(v));
                },
                None => {},
            },
            None => {},
        }
    }
}

proof fn lemma_scan(c1: AgentConfigView, c2: AgentConfigView, contents: Seq<char>, s: Setting)
    ensures
        spec_scan_lines(c1, contents).1 == spec_scan_sets(contents, s).1,
        spec_same_setting(c1, c2, s) ==> spec_same_setting(spec_scan_lines(c1, contents).0, spec_scan_lines(c2, contents).0, s),
        !spec_scan_sets(contents, s).0 ==> spec_same_setting(spec_scan_lines(c1, contents).0, c1, s),
        spec_scan_sets(contents, s).0 ==> spec_same_setting(spec_scan_lines(c1, contents).0, spec_scan_lines(c2, contents).0, s),
    decreases contents.len(),
{
    if contents.len() > 0 {
        let rest = contents.drop_last();
        lemma_scan(c1, c2, rest, s);
        lemma_scan(c2, c1, rest, s);
        let (a1, line) = spec_scan_lines(c1, rest);
        let (a2, line2) = spec_scan_lines(c2, rest);
        lemma_line(a1, a2, line, s);
        lemma_line(a1, a1, line, s);
    }
}

proof fn lemma_file(c1: AgentConfigView, c2: AgentConfigView, file: Option<Seq<char>>, s: Setting)
    ensures
        spec_same_setting(c1, c2, s) ==> spec_same_setting(
            spec_apply_env_file_source(c1, file),
            spec_apply_env_file_source(c2, file),
            s,
        ),
        !spec_file_sets(file, s) ==> spec_same_setting(spec_apply_env_file_source(c1, file), c1, s),
        spec_file_sets(file, s) ==> spec_same_setting(
            spec_apply_env_file_source(c1, file),
            spec_apply_env_file_source(c2, file),
            s,
        ),
{
    match file {
        Some(f) => {
            lemma_scan(c1, c2, f, s);
            lemma_scan(c2, c1, f, s);
            let (a1, last) = spec_scan_lines(c1, f);
            let (a2, last2) = spec_scan_lines(c2, f);
            lemma_line(a1, a2, last, s);
            lemma_line(a1, a1, last, s);
            assert(spec_apply_env_file(c1, f) == spec_apply_file_line(a1, last));
            assert(spec_apply_env_file(c2, f) == spec_apply_file_line(a2, last));
        },
        None => {},
    }
}

proof fn lemma_toml_identity(c1: AgentConfigView, c2: AgentConfigView, t: TomlView, s: Setting)
    ensures
        spec_same_setting(c1, c2, s) ==> spec_same_setting(spec_apply_toml_identity(c1, t), spec_apply_toml_identity(c2, t), s),
        !((s == Setting::BackendUrl || s == Setting::ApiKey || s == Setting::AgentName || s == Setting::AgentId) && spec_toml_sets(t, s)) ==> spec_same_setting(spec_apply_toml_identity(c1, t), c1, s),
        (s == Setting::BackendUrl || s == Setting::ApiKey || s == Setting::AgentName || s == Setting::AgentId) && spec_toml_sets(t, s) ==> spec_same_setting(spec_apply_toml_identity(c1, t), spec_apply_toml_identity(c2, t), s),
{
    match s {
        Setting::BackendUrl => {},
        Setting::ApiKey => {},
        Setting::AgentName => {},
        Setting::AgentId => {},
        Setting::HeartbeatInterval => {},
        Setting::ReconnectInitial => {},
        Setting::ReconnectMax => {},
        Setting::MaxConcurrent => {},
        Setting::TaskTimeout => {},
        Setting::Runtime => {},
        Setting::LogLevel => {},
        Setting::LogFormat => {},
        Setting::MetricsInterval => {},
        Setting::DataDir => {},
    }
}

proof fn lemma_toml_numbers(c1: AgentConfigView, c2: AgentConfigView, t: TomlView, s: Setting)
    ensures
        spec_same_setting(c1, c2, s) ==> spec_same_setting(spec_apply_toml_numbers(c1, t), spec_apply_toml_numbers(c2, t), s),
        !((s == Setting::HeartbeatInterval || s == Setting::ReconnectInitial || s == Setting::ReconnectMax || s == Setting::MaxConcurrent || s == Setting::TaskTimeout || s == Setting::MetricsInterval) && spec_toml_sets(t, s)) ==> spec_same_setting(spec_apply_toml_numbers(c1, t), c1, s),
        (s == Setting::HeartbeatInterval || s == Setting::ReconnectInitial || s == Setting::ReconnectMax || s == Setting::MaxConcurrent || s == Setting::TaskTimeout || s == Setting::MetricsInterval) && spec_toml_sets(t, s) ==> spec_same_setting(spec_apply_toml_numbers(c1, t), spec_apply_toml_numbers(c2, t), s),
{
    match s {
        Setting::BackendUrl => {},
        Setting::ApiKey => {},
        Setting::AgentName => {},
        Setting::AgentId => {},
        Setting::HeartbeatInterval => {},
        Setting::ReconnectInitial => {},
        Setting::ReconnectMax => {},
        Setting::MaxConcurrent => {},
        Setting::TaskTimeout => {},
        Setting::Runtime => {},
        Setting::LogLevel => {},
        Setting::LogFormat => {},
        Setting::MetricsInterval => {},
        Setting::DataDir => {},
    }
}

proof fn lemma_toml_rest(c1: AgentConfigView, c2: AgentConfigView, t: TomlView, s: Setting)
    ensures
        spec_same_setting(c1, c2, s) ==> spec_same_setting(spec_apply_toml_rest(c1, t), spec_apply_toml_rest(c2, t), s),
        !((s == Setting::Runtime || s == Setting::LogLevel || s == Setting::LogFormat || s == Setting::DataDir) && spec_toml_sets(t, s)) ==> spec_same_setting(spec_apply_toml_rest(c1, t), c1, s),
        (s == Setting::Runtime || s == Setting::LogLevel || s == Setting::LogFormat || s == Setting::DataDir) && spec_toml_sets(t, s) ==> spec_same_setting(spec_apply_toml_rest(c1, t), spec_apply_toml_rest(c2, t), s),
{
    match s {
        Setting::BackendUrl => {},
        Setting::ApiKey => {},
        Setting::AgentName => {},
        Setting::AgentId => {},
        Setting::HeartbeatInterval => {},
        Setting::ReconnectInitial => {},
        Setting::ReconnectMax => {},
        Setting::MaxConcurrent => {},
        Setting::TaskTimeout => {},
        Setting::Runtime => {},
        Setting::LogLevel => {},
        Setting::LogFormat => {},
        Setting::MetricsInterval => {},
        Setting::DataDir => {},
    }
}

proof fn lemma_toml_values(c1: AgentConfigView, c2: AgentConfigView, t: TomlView, s: Setting)
    ensures
        spec_same_setting(c1, c2, s) ==> spec_same_setting(spec_apply_toml(c1, t), spec_apply_toml(c2, t), s),
        !spec_toml_sets(t, s) ==> spec_same_setting(spec_apply_toml(c1, t), c1, s),
        spec_toml_sets(t, s) ==> spec_same_setting(spec_apply_toml(c1, t), spec_apply_toml(c2, t), s),
{
    let i1 = spec_apply_toml_identity(c1, t);
    let i2 = spec_apply_toml_identity(c2, t);
    let n1 = spec_apply_toml_numbers(i1, t);
    let n2 = spec_apply_toml_numbers(i2, t);
    lemma_toml_identity(c1, c2, t, s);
    lemma_toml_numbers(i1, i2, t, s);
    lemma_toml_numbers(i1, i1, t, s);
    lemma_toml_rest(n1, n2, t, s);
    lemma_toml_rest(n1, n1, t, s);
    if !spec_toml_sets(t, s) {
        lemma_same_trans(spec_apply_toml_rest(n1, t), n1, i1, s);
        lemma_same_trans(spec_apply_toml_rest(n1, t), i1, c1, s);
    }
}

proof fn lemma_toml(c1: AgentConfigView, c2: AgentConfigView, toml: Option<Seq<char>>, s: Setting)
    ensures
        spec_same_setting(c1, c2, s) ==> spec_same_setting(spec_apply_toml_source(c1, toml), spec_apply_toml_source(c2, toml), s),
        !spec_toml_source_sets(toml, s) ==> spec_same_setting(spec_apply_toml_source(c1, toml), c1, s),
        spec_toml_source_sets(toml, s) ==> spec_same_setting(
            spec_apply_toml_source(c1, toml),
            spec_apply_toml_source(c2, toml),
            s,
        ),
{
    match toml {
        Some(t) => lemma_toml_values(c1, c2, spec_toml_view(t), s),
        None => {},
    }
}

/// Law: giving a setting a value changes that setting alone: every other
/// setting, and every field that no source sets, keeps its value; and a
/// value that is not taken changes nothing.
pub proof fn law_setting_changes_own_field(c: AgentConfigView, s: Setting, v: Seq<char>, t: Setting)
    ensures
        t != s ==> spec_same_setting(spec_apply_setting(c, s, v), c, t),
        !spec_value_taken(s, v) ==> spec_apply_setting(c, s, v) == c,
        spec_apply_setting(c, s, v).ws_ping_interval_secs == c.ws_ping_interval_secs,
        spec_apply_setting(c, s, v).metrics_listen_addr == c.metrics_listen_addr,
        spec_apply_setting(c, s, v).default_timeout_secs == c.default_timeout_secs,
        spec_apply_setting(c, s, v).operation_timeout_overrides == c.operation_timeout_overrides,
        spec_apply_setting(c, s, v).enable_cancel == c.enable_cancel,
{
    match s {
        Setting::BackendUrl => {},
        Setting::ApiKey => {},
        Setting::AgentName => {},
        Setting::AgentId => {},
        Setting::HeartbeatInterval => {},
        Setting::ReconnectInitial => {},
        Setting::ReconnectMax => {},
        Setting::MaxConcurrent => {},
        Setting::TaskTimeout => {},
        Setting::Runtime => {},
        Setting::LogLevel => {},
        Setting::LogFormat => {},
        Setting::MetricsInterval => {},
        Setting::DataDir => {},
    }
}

/// Law: each setting of a loaded configuration comes from the source of
/// highest precedence that sets it, in the order `ESCLUSE_AGENT_*`
/// variables, legacy settings file, `AGENT_*` variables, TOML file, and
/// otherwise keeps its value from before loading. The source that decides
/// gives the same value whatever the sources below it held: the loaded
/// setting equals what that source alone gives from any configuration `d`.
pub proof fn law_load_precedence(
    c: AgentConfigView,
    toml: Option<Seq<char>>,
    legacy_env: Seq<(Seq<char>, Seq<char>)>,
    env_file: Option<Seq<char>>,
    env: Seq<(Seq<char>, Seq<char>)>,
    s: Setting,
    d: AgentConfigView,
)
    ensures
        ({
            let loaded = spec_load(c, toml, legacy_env, env_file, env);
            &&& spec_vars_set(Source::Env, env, s) ==> spec_same_setting(loaded, spec_apply_vars(d, Source::Env, env), s)
            &&& !spec_vars_set(Source::Env, env, s) && spec_file_sets(env_file, s) ==> spec_same_setting(
                loaded,
                spec_apply_env_file_source(d, env_file),
                s,
            )
            &&& !spec_vars_set(Source::Env, env, s) && !spec_file_sets(env_file, s) && spec_vars_set(
                Source::LegacyEnv,
                legacy_env,
                s,
            ) ==> spec_same_setting(loaded, spec_apply_vars(d, Source::LegacyEnv, legacy_env), s)
            &&& !spec_vars_set(Source::Env, env, s) && !spec_file_sets(env_file, s) && !spec_vars_set(
                Source::LegacyEnv,
                legacy_env,
                s,
            ) && spec_toml_source_sets(toml, s) ==> spec_same_setting(loaded, spec_apply_toml_source(d, toml), s)
            &&& !spec_vars_set(Source::Env, env, s) && !spec_file_sets(env_file, s) && !spec_vars_set(
                Source::LegacyEnv,
                legacy_env,
                s,
            ) && !spec_toml_source_sets(toml, s) ==> spec_same_setting(loaded, c, s)
        }),
{
    let a1 = spec_apply_toml_source(c, toml);
    let a2 = spec_apply_vars(a1, Source::LegacyEnv, legacy_env);
    let a3 = spec_apply_env_file_source(a2, env_file);
    let a4 = spec_apply_vars(a3, Source::Env, env);
    assert(a4 == spec_load(c, toml, legacy_env, env_file, env));
    if spec_vars_set(Source::Env, env, s) {
        lemma_vars(a3, d, Source::Env, env, s);
    } else {
        lemma_vars(a3, a3, Source::Env, env, s);
        if spec_file_sets(env_file, s) {
            lemma_file(a2, d, env_file, s);
            lemma_same_trans(a4, a3, spec_apply_env_file_source(d, env_file), s);
        } else {
            lemma_file(a2, a2, env_file, s);
            lemma_same_trans(a4, a3, a2, s);
            if spec_vars_set(Source::LegacyEnv, legacy_env, s) {
                lemma_vars(a1, d, Source::LegacyEnv, legacy_env, s);
                lemma_same_trans(a4, a2, spec_apply_vars(d, Source::LegacyEnv, legacy_env), s);
            } else {
                lemma_vars(a1, a1, Source::LegacyEnv, legacy_env, s);
                lemma_same_trans(a4, a2, a1, s);
                if spec_toml_source_sets(toml, s) {
                    lemma_toml(c, d, toml, s);
                    lemma_same_trans(a4, a1, spec_apply_toml_source(d, toml), s);
                } else {
                    lemma_toml(c, c, toml, s);
                    lemma_same_trans(a4, a1, c, s);
                }
            }
        }
    }
}

} // verus!
