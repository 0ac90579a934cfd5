use agent_core::config::loader::{
    apply_env_file, apply_env_vars, apply_toml, log_format_of_lower, parse_log_format, parse_runtime_preference,
    load_from_sources, runtime_of_lower, Source,
};
use agent_core::config::paths::{config_dir, config_file_candidates, env_file_choice, log_dir_candidates};
use agent_core::config::schema::{join_path, AgentConfig, IpAddress, ListenAddr, LogFormat, RuntimePreference, SecretString};
use agent_core::config::validator::{validate, ConfigError};

#[test]
fn test_default_config() {
    let config = AgentConfig::default();
    assert_eq!(config.heartbeat_interval_secs, 30);
    assert_eq!(config.max_concurrent_tasks, 10);
}

#[test]
fn test_secret_string() {
    let secret = SecretString::new("api_key_123".to_string());
    assert_eq!(secret.expose_secret(), "api_key_123");
    assert!(!secret.is_empty());
}

#[test]
fn test_valid_config() {
    let mut config = AgentConfig::default();
    config.backend_url = "wss://api.example.com".to_string();
    config.api_key = "test_key".to_string().into();

    let result = validate(&config);
    assert!(result.is_ok());
}

#[test]
fn test_missing_api_key() {
    let mut config = AgentConfig::default();
    config.backend_url = "wss://api.example.com".to_string();
    config.api_key = "".to_string().into();

    let result = validate(&config);
    assert!(result.is_err());
}

#[test]
fn test_load_from_env() {
    let mut config = AgentConfig::default();
    let vars = vec![
        ("AGENT_BACKEND_URL".to_string(), "wss://test.example.com".to_string()),
        ("AGENT_API_KEY".to_string(), "test_key_123".to_string()),
    ];
    apply_env_vars(&mut config, Source::LegacyEnv, &vars);

    assert_eq!(config.backend_url, "wss://test.example.com");
    assert_eq!(config.api_key.expose_secret(), "test_key_123");
}

#[test]
fn default_config_values() {
    let c = AgentConfig::for_host(Some("/home/u/.local/share".to_string()), Some("box".to_string()));
    assert_eq!(c.backend_url, "wss://app.esluce.com/api/ws/node");
    assert!(c.api_key.is_empty());
    assert_eq!(c.agent_name, "box");
    assert_eq!(c.data_dir, "/home/u/.local/share/escluse-agent");
    assert_eq!(c.reconnect_initial_secs, 2);
    assert_eq!(c.reconnect_max_secs, 120);
    assert_eq!(c.task_timeout_default_secs, 300);
    assert_eq!(c.runtime_preference, RuntimePreference::Auto);
    assert_eq!(c.log_level, "info");
    assert_eq!(c.log_format, LogFormat::Text);
    let d = AgentConfig::for_host(None, None);
    assert_eq!(d.agent_name, "agent");
    assert_eq!(d.data_dir, "./escluse-agent");
}

#[test]
fn every_broken_rule_is_reported_in_order() {
    let mut c = AgentConfig::for_host(None, None);
    c.backend_url = "ftp://x".to_string();
    c.heartbeat_interval_secs = 5;
    c.max_concurrent_tasks = 0;
    c.metrics_listen_addr = Some(ListenAddr { ip: IpAddress::V4(0), port: 9100 });
    let errors = validate(&c).unwrap_err();
    let texts: Vec<String> = errors.iter().map(|e| e.to_string()).collect();
    assert_eq!(
        texts,
        vec![
            "field 'backend_url' is invalid: must start with wss://, ws://, https://, or http://".to_string(),
            "field 'api_key' is missing".to_string(),
            "field 'heartbeat_interval_secs' value 5 is out of range [10, 300]".to_string(),
            "field 'max_concurrent_tasks' is invalid: must be >= 1".to_string(),
            "field 'metrics_listen_addr' is invalid: must be 127.0.0.1 or specific IP, not 0.0.0.0".to_string(),
        ]
    );
    assert!(matches!(errors[1], ConfigError::Missing { .. }));
}

#[test]
fn loopback_listen_address_is_accepted() {
    let mut c = AgentConfig::for_host(None, None);
    c.api_key = SecretString::new("k".to_string());
    c.metrics_listen_addr = Some(ListenAddr { ip: IpAddress::V4(0x7f00_0001), port: 9100 });
    assert!(validate(&c).is_ok());
    assert!(IpAddress::V4(0x7f00_0001).is_loopback());
    assert!(IpAddress::V6(1).is_loopback());
    assert!(IpAddress::V6(0).is_unspecified());
    c.heartbeat_interval_secs = 300;
    assert!(validate(&c).is_ok());
    c.heartbeat_interval_secs = 301;
    assert!(validate(&c).is_err());
}

#[test]
fn runtime_and_log_format_names() {
    assert_eq!(parse_runtime_preference("DOCKER"), RuntimePreference::Docker);
    assert_eq!(parse_runtime_preference("podman"), RuntimePreference::Podman);
    assert_eq!(parse_runtime_preference("None"), RuntimePreference::NoRuntime);
    assert_eq!(parse_runtime_preference("whatever"), RuntimePreference::Auto);
    assert_eq!(parse_log_format("json"), LogFormat::Json);
    assert_eq!(parse_log_format("text"), LogFormat::Text);
}

#[test]
fn env_overrides_and_bad_numbers() {
    let mut c = AgentConfig::for_host(None, None);
    let vars = vec![
        ("ESCLUSE_AGENT_NAME".to_string(), "alpha".to_string()),
        ("ESCLUSE_AGENT_HEARTBEAT_INTERVAL".to_string(), "45".to_string()),
        ("ESCLUSE_AGENT_MAX_CONCURRENT".to_string(), "many".to_string()),
        ("ESCLUSE_AGENT_NAME".to_string(), "beta".to_string()),
        ("UNRELATED".to_string(), "x".to_string()),
    ];
    apply_env_vars(&mut c, Source::Env, &vars);
    assert_eq!(c.agent_name, "beta");
    assert_eq!(c.heartbeat_interval_secs, 45);
    assert_eq!(c.max_concurrent_tasks, 10);
}

#[test]
fn env_file_lines() {
    let mut c = AgentConfig::for_host(None, None);
    let contents = "# comment\n\n  AGENT_NAME = gamma \nAGENT_RUNTIME=Podman\nAGENT_MAX_CONCURRENT=4\nnot a setting\nLOG_LEVEL=debug=x\n";
    apply_env_file(&mut c, contents);
    assert_eq!(c.agent_name, "gamma");
    assert_eq!(c.runtime_preference, RuntimePreference::Podman);
    assert_eq!(c.max_concurrent_tasks, 4);
    assert_eq!(c.log_level, "debug=x");
}

#[test]
fn toml_settings() {
    let mut c = AgentConfig::for_host(None, None);
    let text = "[server]\nbackend_url = \"wss://b.example\"\n[agent]\nname = \"delta\"\n[connection]\nheartbeat_interval = 15\n[metrics]\nlisten = \"127.0.0.1:9100\"\n";
    let listen = apply_toml(&mut c, text);
    assert_eq!(c.agent_name, "delta");
    assert_eq!(c.backend_url, "wss://b.example");
    assert_eq!(c.heartbeat_interval_secs, 15);
    assert_eq!(listen, Some("127.0.0.1:9100".to_string()));
    let mut d = AgentConfig::for_host(None, None);
    assert_eq!(apply_toml(&mut d, "this is = = not toml"), None);
    assert_eq!(d.agent_name, "agent");
}

#[test]
fn secret_string_from_text() {
    let s: SecretString = "abc".to_string().into();
    assert_eq!(s.expose_secret(), "abc");
    assert!(SecretString::default().is_empty());
}

#[test]
fn path_joining() {
    assert_eq!(join_path("/a", "b"), "/a/b");
    assert_eq!(join_path("/a/", "b"), "/a/b");
    assert_eq!(join_path("", "b"), "b");
}

#[test]
fn configuration_file_places() {
    assert_eq!(config_dir(Some("/x"), Some("/y")), "/x/escluse-agent");
    assert_eq!(config_dir(None, Some("/y")), "/y/escluse-agent");
    assert_eq!(config_dir(None, None), "./escluse-agent");
    assert_eq!(
        config_file_candidates(Some("/x"), Some("/y"), Some("/z"), "config.toml"),
        vec![
            "/x/escluse-agent/config.toml".to_string(),
            "/x/escluse-agent/config.toml".to_string(),
            "/z/escluse-agent/config.toml".to_string(),
        ]
    );
    assert_eq!(
        config_file_candidates(None, Some("/y"), None, "config.toml"),
        vec!["/y/escluse-agent/config.toml".to_string()]
    );
    assert_eq!(
        log_dir_candidates(Some("/z")),
        vec!["/var/log/escluse-agent".to_string(), "/z/escluse-agent/logs".to_string()]
    );
    assert_eq!(env_file_choice(Some("/my.env".to_string()), true, true), Some("/my.env".to_string()));
    assert_eq!(env_file_choice(None, true, true), Some(".env".to_string()));
    assert_eq!(env_file_choice(None, false, true), Some("/etc/escluse/agent.env".to_string()));
    assert_eq!(env_file_choice(None, false, false), None);
}

#[test]
fn agent_identifier_settings() {
    let mut c = AgentConfig::for_host(None, None);
    let vars = vec![("AGENT_ID".to_string(), "67e55044-10b1-426f-9247-bb680e5fe0c8".to_string())];
    apply_env_vars(&mut c, Source::LegacyEnv, &vars);
    assert_eq!(c.agent_id, Some(0x67e55044_10b1_426f_9247_bb680e5fe0c8));
    let bad = vec![("AGENT_ID".to_string(), "not-a-uuid".to_string())];
    apply_env_vars(&mut c, Source::LegacyEnv, &bad);
    assert_eq!(c.agent_id, Some(0x67e55044_10b1_426f_9247_bb680e5fe0c8));
}

#[test]
fn lower_case_names() {
    assert_eq!(runtime_of_lower("docker"), RuntimePreference::Docker);
    assert_eq!(runtime_of_lower("Docker"), RuntimePreference::Auto);
    assert_eq!(log_format_of_lower("json"), LogFormat::Json);
    assert_eq!(log_format_of_lower("JSON"), LogFormat::Text);
}

#[test]
fn sources_apply_in_order_of_precedence() {
    let mut c = AgentConfig::for_host(None, None);
    let toml = "[agent]\nname = \"from-toml\"\n[logging]\nlevel = \"warn\"\n[metrics]\nlisten = \"127.0.0.1:1\"\n";
    let legacy = vec![
        ("AGENT_NAME".to_string(), "from-legacy".to_string()),
        ("AGENT_METRICS_LISTEN".to_string(), "127.0.0.1:2".to_string()),
        ("AGENT_DATA_DIR".to_string(), "/legacy".to_string()),
    ];
    let file = "AGENT_NAME=from-file\nAGENT_DATA_DIR=/file\n";
    let env = vec![
        ("ESCLUSE_AGENT_NAME".to_string(), "from-env".to_string()),
        ("ESCLUSE_AGENT_METRICS_LISTEN".to_string(), "127.0.0.1:3".to_string()),
    ];
    let (t, l, e) = load_from_sources(&mut c, Some(toml), &legacy, Some(file), &env);
    assert_eq!(c.agent_name, "from-env");
    assert_eq!(c.data_dir, "/file");
    assert_eq!(c.log_level, "warn");
    assert_eq!(t.as_deref(), Some("127.0.0.1:1"));
    assert_eq!(l.as_deref(), Some("127.0.0.1:2"));
    assert_eq!(e.as_deref(), Some("127.0.0.1:3"));
    let mut d = AgentConfig::for_host(None, None);
    let (t2, l2, e2) = load_from_sources(&mut d, None, &[], None, &[]);
    assert_eq!(d.agent_name, "agent");
    assert!(t2.is_none() && l2.is_none() && e2.is_none());
}

#[test]
fn value_that_does_not_parse_leaves_lower_source() {
    let mut c = AgentConfig::for_host(None, None);
    let toml = "[connection]\nheartbeat_interval = 45\n[task]\nmax_concurrent = 4\n";
    let legacy = vec![("AGENT_HEARTBEAT_INTERVAL".to_string(), "50".to_string())];
    let file = "AGENT_HEARTBEAT_INTERVAL=soon\n# AGENT_MAX_CONCURRENT=9\n";
    let env = vec![("ESCLUSE_AGENT_MAX_CONCURRENT".to_string(), "many".to_string())];
    load_from_sources(&mut c, Some(toml), &legacy, Some(file), &env);
    assert_eq!(c.heartbeat_interval_secs, 50);
    assert_eq!(c.max_concurrent_tasks, 4);
    assert_eq!(c.reconnect_max_secs, 120);
}
