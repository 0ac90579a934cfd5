//! Checks of a configuration.

use crate::config::schema::{spec_is_loopback, spec_is_unspecified, AgentConfig};
use crate::text::{append_signed_decimal, spec_signed_decimal, spec_starts_with, starts_with};
use vstd::prelude::*;

verus! {

/// A setting that is missing or wrong.
#[derive(Debug)]
pub enum ConfigError {
    Missing { field: String },
    Invalid { field: String, message: String },
    OutOfRange { field: String, min: i64, max: i64, value: i64 },
}

/// The abstract content of a configuration error.
pub enum ConfigErrorView {
    Missing { field: Seq<char> },
    Invalid { field: Seq<char>, message: Seq<char> },
    OutOfRange { field: Seq<char>, min: i64, max: i64, value: i64 },
}

impl View for ConfigError {
    type V = ConfigErrorView;

    open spec fn view(&self) -> ConfigErrorView {
        match self {
            ConfigError::Missing { field } => ConfigErrorView::Missing { field: field@ },
            ConfigError::Invalid { field, message } => ConfigErrorView::Invalid { field: field@, message: message@ },
            ConfigError::OutOfRange { field, min, max, value } => ConfigErrorView::OutOfRange {
                field: field@,
                min: *min,
                max: *max,
                value: *value,
            },
        }
    }
}

/// The text shown for a configuration error.
pub open spec fn spec_config_error_text(e: ConfigErrorView) -> Seq<char> {
    match e {
        ConfigErrorView::Missing { field } => "field '"@ + field + "' is missing"@,
        ConfigErrorView::Invalid { field, message } => "field '"@ + field + "' is invalid: "@ + message,
        ConfigErrorView::OutOfRange { field, min, max, value } => "field '"@ + field + "' value "@
            + spec_signed_decimal(value as int) + " is out of range ["@ + spec_signed_decimal(min as int) + ", "@
            + spec_signed_decimal(max as int) + "]"@,
    }
}

impl ConfigError {
    /// The text shown for the error, such as `field 'api_key' is missing`.
    pub fn to_string(&self) -> (s: String)
        ensures
            s@ == spec_config_error_text(self@),
    {
        let mut s = String::from_str("field '");
        match self {
            ConfigError::Missing { field } => {
                s.append(field.as_str());
                s.append("' is missing");
            },
            ConfigError::Invalid { field, message } => {
                s.append(field.as_str());
                s.append("' is invalid: ");
                s.append(message.as_str());
            },
            ConfigError::OutOfRange { field, min, max, value } => {
                s.append(field.as_str());
                s.append("' value ");
                append_signed_decimal(&mut s, *value);
                s.append(" is out of range [");
                append_signed_decimal(&mut s, *min);
                s.append(", ");
                append_signed_decimal(&mut s, *max);
                s.append("]");
            },
        }
        assert(s@ =~= spec_config_error_text(self@));
        s
    }
}

/// Whether the backend URL has one of the accepted schemes.
pub open spec fn spec_url_scheme_ok(url: Seq<char>) -> bool {
    spec_starts_with(url, "wss://"@) || spec_starts_with(url, "ws://"@) || spec_starts_with(url, "http://"@)
        || spec_starts_with(url, "https://"@)
}

/// The errors of a configuration, in the order the rules are checked.
pub open spec fn spec_config_errors(c: AgentConfig) -> Seq<ConfigErrorView> {
    let e1: Seq<ConfigErrorView> = if !spec_url_scheme_ok(c.backend_url@) {
        seq![ConfigErrorView::Invalid { field: "backend_url"@, message: "must start with wss://, ws://, https://, or http://"@ }]
    } else {
        seq![]
    };
    let e2: Seq<ConfigErrorView> = if c.api_key@.len() == 0 {
        seq![ConfigErrorView::Missing { field: "api_key"@ }]
    } else {
        seq![]
    };
    let e3: Seq<ConfigErrorView> = if c.heartbeat_interval_secs < 10 || c.heartbeat_interval_secs > 300 {
        seq![ConfigErrorView::OutOfRange { field: "heartbeat_interval_secs"@, min: 10, max: 300, value: c.heartbeat_interval_secs as i64 }]
    } else {
        seq![]
    };
    let e4: Seq<ConfigErrorView> = if c.max_concurrent_tasks == 0 {
        seq![ConfigErrorView::Invalid { field: "max_concurrent_tasks"@, message: "must be >= 1"@ }]
    } else {
        seq![]
    };
    let e5: Seq<ConfigErrorView> = match c.metrics_listen_addr {
        Some(a) => if spec_is_unspecified(a.ip) && !spec_is_loopback(a.ip) {
            seq![ConfigErrorView::Invalid { field: "metrics_listen_addr"@, message: "must be 127.0.0.1 or specific IP, not 0.0.0.0"@ }]
        } else {
            seq![]
        },
        None => seq![],
    };
    e1 + e2 + e3 + e4 + e5
}

fn push_error(errors: &mut Vec<ConfigError>, e: ConfigError)
    ensures
        final(errors)@.map_values(|x: ConfigError| x@) == old(errors)@.map_values(|x: ConfigError| x@).push(e@),
{
    errors.push(e);
    assert(final(errors)@.map_values(|x: ConfigError| x@) =~= old(errors)@.map_values(|x: ConfigError| x@).push(e@));
}

/// Checks a configuration: the backend URL must use ws, wss, http or https,
/// the API key must be set, the heartbeat interval must be 10 to 300
/// seconds, at least one task must be allowed at a time, and metrics must
/// not listen on the unspecified address. Every broken rule is reported.
pub fn validate(config: &AgentConfig) -> (r: Result<(), Vec<ConfigError>>)
    ensures
        r is Ok <==> spec_config_errors(*config).len() == 0,
        r is Err ==> r->Err_0@.map_values(|x: ConfigError| x@) == spec_config_errors(*config),
{
    let mut errors: Vec<ConfigError> = Vec::new();
    let url = config.backend_url.as_str();
    let ghost mut expected: Seq<ConfigErrorView> = seq![];
    if !starts_with(url, "wss://") && !starts_with(url, "ws://") && !starts_with(url, "http://")
        && !starts_with(url, "https://") {
        push_error(&mut errors, ConfigError::Invalid {
            field: String::from_str("backend_url"),
            message: String::from_str("must start with wss://, ws://, https://, or http://"),
        });
    }
    if config.api_key.is_empty() {
        push_error(&mut errors, ConfigError::Missing { field: String::from_str("api_key") });
    }
    if config.heartbeat_interval_secs < 10 || config.heartbeat_interval_secs > 300 {
        push_error(&mut errors, ConfigError::OutOfRange {
            field: String::from_str("heartbeat_interval_secs"),
            min: 10,
            max: 300,
            value: config.heartbeat_interval_secs as i64,
        });
    }
    if config.max_concurrent_tasks == 0 {
        push_error(&mut errors, ConfigError::Invalid {
            field: String::from_str("max_concurrent_tasks"),
            message: String::from_str("must be >= 1"),
        });
    }
    match &config.metrics_listen_addr {
        Some(addr) => {
            let is_loopback = addr.ip.is_loopback();
            let is_unspecified = addr.ip.is_unspecified();
            if is_unspecified && !is_loopback {
                push_error(&mut errors, ConfigError::Invalid {
                    field: String::from_str("metrics_listen_addr"),
                    message: String::from_str("must be 127.0.0.1 or specific IP, not 0.0.0.0"),
                });
            }
        },
        None => {},
    }
    assert(errors@.map_values(|x: ConfigError| x@) =~= spec_config_errors(*config));
    if errors.len() == 0 {
        Ok(())
    } else {
        Err(errors)
    }
}

/// Law: a configuration is accepted exactly when it breaks no rule; each
/// broken rule is reported once, in the order the rules are listed.
pub proof fn law_valid_iff_no_broken_rule(c: AgentConfig)
    ensures
        spec_config_errors(c).len() == 0 <==> {
            &&& spec_url_scheme_ok(c.backend_url@)
            &&& c.api_key@.len() > 0
            &&& 10 <= c.heartbeat_interval_secs <= 300
            &&& c.max_concurrent_tasks >= 1
            &&& (c.metrics_listen_addr matches Some(a) ==> !spec_is_unspecified(a.ip) || spec_is_loopback(a.ip))
        },
        spec_config_errors(c).len() <= 5,
{
}

} // verus!
