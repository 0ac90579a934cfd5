//! Where the agent looks for its files. Reading the environment and asking
//! which files exist is left to the caller, who hands the answers here.

use crate::config::schema::{join_path, spec_join_path};
use vstd::prelude::*;

verus! {

/// The directory name the agent keeps its files under.
pub const APP_DIR: &'static str = "escluse-agent";

/// The configuration directory: `$XDG_CONFIG_HOME/escluse-agent` when that
/// variable is set, else the platform's configuration directory (or `.`)
/// with `escluse-agent` below it.
pub open spec fn spec_config_dir(xdg_config_home: Option<Seq<char>>, platform_config_dir: Option<Seq<char>>) -> Seq<char> {
    match xdg_config_home {
        Some(x) => spec_join_path(x, "escluse-agent"@),
        None => spec_join_path(
            match platform_config_dir {
                Some(d) => d,
                None => "."@,
            },
            "escluse-agent"@,
        ),
    }
}

/// The configuration directory.
pub fn config_dir(xdg_config_home: Option<&str>, platform_config_dir: Option<&str>) -> (d: String)
    ensures
        d@ == spec_config_dir(
            match xdg_config_home {
                Some(x) => Some(x@),
                None => None,
            },
            match platform_config_dir {
                Some(p) => Some(p@),
                None => None,
            },
        ),
{
    match xdg_config_home {
        Some(x) => join_path(x, APP_DIR),
        None => match platform_config_dir {
            Some(p) => join_path(p, APP_DIR),
            None => join_path(".", APP_DIR),
        },
    }
}

pub open spec fn opt_seq(o: Option<&str>) -> Option<Seq<char>> {
    match o {
        Some(s) => Some(s@),
        None => None,
    }
}

/// The places a configuration file `filename` is looked for, in order:
/// under `$XDG_CONFIG_HOME/escluse-agent` when that variable is set, under
/// the configuration directory, and under the platform's local data
/// directory when there is one. The first that exists is used.
pub open spec fn spec_config_file_candidates(
    xdg_config_home: Option<Seq<char>>,
    platform_config_dir: Option<Seq<char>>,
    data_local_dir: Option<Seq<char>>,
    filename: Seq<char>,
) -> Seq<Seq<char>> {
    let first: Seq<Seq<char>> = match xdg_config_home {
        Some(x) => seq![spec_join_path(spec_join_path(x, "escluse-agent"@), filename)],
        None => Seq::empty(),
    };
    let last: Seq<Seq<char>> = match data_local_dir {
        Some(d) => seq![spec_join_path(spec_join_path(d, "escluse-agent"@), filename)],
        None => Seq::empty(),
    };
    first + seq![spec_join_path(spec_config_dir(xdg_config_home, platform_config_dir), filename)] + last
}

/// The places a configuration file is looked for, in order.
pub fn config_file_candidates(
    xdg_config_home: Option<&str>,
    platform_config_dir: Option<&str>,
    data_local_dir: Option<&str>,
    filename: &str,
) -> (v: Vec<String>)
    ensures
        v@.map_values(|s: String| s@) == spec_config_file_candidates(
            opt_seq(xdg_config_home),
            opt_seq(platform_config_dir),
            opt_seq(data_local_dir),
            filename@,
        ),
{
    let mut v: Vec<String> = Vec::new();
    match xdg_config_home {
        Some(x) => {
            let dir = join_path(x, APP_DIR);
            v.push(join_path(dir.as_str(), filename));
        },
        None => {},
    }
    let dir = config_dir(xdg_config_home, platform_config_dir);
    v.push(join_path(dir.as_str(), filename));
    match data_local_dir {
        Some(d) => {
            let dir = join_path(d, APP_DIR);
            v.push(join_path(dir.as_str(), filename));
        },
        None => {},
    }
    proof {
        reveal_strlit("escluse-agent");
    }
    assert(v@.map_values(|s: String| s@) =~= spec_config_file_candidates(
        opt_seq(xdg_config_home),
        opt_seq(platform_config_dir),
        opt_seq(data_local_dir),
        filename@,
    ));
    v
}

/// The system-wide log directory, used when it exists or can be made.
pub const SYSTEM_LOG_DIR: &'static str = "/var/log/escluse-agent";

/// The log directories to try, in order: the system-wide one, then
/// `escluse-agent/logs` under the platform's local data directory when
/// there is one.
pub fn log_dir_candidates(data_local_dir: Option<&str>) -> (v: Vec<String>)
    ensures
        v@.len() >= 1,
        v@[0]@ == SYSTEM_LOG_DIR@,
        data_local_dir is None ==> v@.len() == 1,
        data_local_dir is Some ==> v@.len() == 2 && v@[1]@ == spec_join_path(
            spec_join_path(data_local_dir->Some_0@, "escluse-agent"@),
            "logs"@,
        ),
{
    let mut v: Vec<String> = Vec::new();
    v.push(String::from_str(SYSTEM_LOG_DIR));
    match data_local_dir {
        Some(d) => {
            let dir = join_path(d, APP_DIR);
            v.push(join_path(dir.as_str(), "logs"));
        },
        None => {},
    }
    v
}

/// The name of the log file, rotated daily.
pub const LOG_FILE_NAME: &'static str = "agent.log";

/// The legacy settings file: the one `AGENT_CONFIG_FILE` names when that
/// variable is set; else `.env` when it exists; else
/// `/etc/escluse/agent.env` when it exists; else none.
pub fn env_file_choice(config_file_var: Option<String>, dot_env_exists: bool, etc_env_exists: bool) -> (r: Option<String>)
    ensures
        config_file_var is Some ==> r is Some && r->Some_0@ == config_file_var->Some_0@,
        config_file_var is None && dot_env_exists ==> r is Some && r->Some_0@ == ".env"@,
        config_file_var is None && !dot_env_exists && etc_env_exists ==> r is Some && r->Some_0@
            == "/etc/escluse/agent.env"@,
        config_file_var is None && !dot_env_exists && !etc_env_exists ==> r is None,
{
    match config_file_var {
        Some(p) => Some(p),
        None => if dot_env_exists {
            Some(String::from_str(".env"))
        } else if etc_env_exists {
            Some(String::from_str("/etc/escluse/agent.env"))
        } else {
            None
        },
    }
}

} // verus!
