//! The local audit log: what happened to tasks and to the agent, one entry
//! per line in a file per day. Identifiers are 128-bit UUID values; times
//! are milliseconds since the Unix epoch. Writing the file is left to the
//! caller.

use crate::clock::{now_unix_millis, spec_date_shaped, today_utc_date};
use crate::config::schema::{join_path, spec_join_path};
use vstd::prelude::*;

verus! {

#[derive(Debug, Clone)]
pub enum AuditEvent {
    TaskReceived,
    TaskStarted,
    TaskCompleted,
    TaskFailed,
    TaskRejected { reason: String },
    AgentRegistered,
    AgentDisconnected { reason: String },
    AgentShutdown,
}

#[derive(Debug, Clone)]
pub enum AuditResult {
    Success,
    Failed { error: String },
}

/// One line of the audit log.
#[derive(Debug)]
pub struct AuditEntry {
    pub timestamp: i64,
    pub event: AuditEvent,
    pub task_id: Option<u128>,
    pub task_type: Option<String>,
    pub result: Option<AuditResult>,
    pub agent_id: u128,
}

impl AuditEntry {
    /// A task was received; stamped now.
    pub fn task_received(agent_id: u128, task_id: u128, task_type: &str) -> (e: Self)
        ensures
            e.event is TaskReceived,
            e.task_id == Some(task_id),
            e.task_type is Some && e.task_type->Some_0@ == task_type@,
            e.result is None,
            e.agent_id == agent_id,
    {
        AuditEntry {
            timestamp: now_unix_millis(),
            event: AuditEvent::TaskReceived,
            task_id: Some(task_id),
            task_type: Some(String::from_str(task_type)),
            result: None,
            agent_id,
        }
    }

    /// A task completed; stamped now.
    pub fn task_completed(agent_id: u128, task_id: u128) -> (e: Self)
        ensures
            e.event is TaskCompleted,
            e.task_id == Some(task_id),
            e.task_type is None,
            e.result matches Some(AuditResult::Success),
            e.agent_id == agent_id,
    {
        AuditEntry {
            timestamp: now_unix_millis(),
            event: AuditEvent::TaskCompleted,
            task_id: Some(task_id),
            task_type: None,
            result: Some(AuditResult::Success),
            agent_id,
        }
    }

    /// A task failed with `error`; stamped now.
    pub fn task_failed(agent_id: u128, task_id: u128, error: &str) -> (e: Self)
        ensures
            e.event is TaskFailed,
            e.task_id == Some(task_id),
            e.task_type is None,
            e.result matches Some(AuditResult::Failed { error: m }) && m@ == error@,
            e.agent_id == agent_id,
    {
        AuditEntry {
            timestamp: now_unix_millis(),
            event: AuditEvent::TaskFailed,
            task_id: Some(task_id),
            task_type: None,
            result: Some(AuditResult::Failed { error: String::from_str(error) }),
            agent_id,
        }
    }

    /// The agent registered; stamped now.
    pub fn agent_registered(agent_id: u128) -> (e: Self)
        ensures
            e.event is AgentRegistered,
            e.task_id is None,
            e.task_type is None,
            e.result is None,
            e.agent_id == agent_id,
    {
        AuditEntry {
            timestamp: now_unix_millis(),
            event: AuditEvent::AgentRegistered,
            task_id: None,
            task_type: None,
            result: None,
            agent_id,
        }
    }
}

/// The name of the log file of a day: `audit-<date>.log`.
pub open spec fn spec_log_file_name(date: Seq<char>) -> Seq<char> {
    "audit-"@ + date + ".log"@
}

/// The log file of a day under the data directory: `audit/audit-<date>.log`.
pub open spec fn spec_log_path(data_dir: Seq<char>, date: Seq<char>) -> Seq<char> {
    spec_join_path(spec_join_path(data_dir, "audit"@), spec_log_file_name(date))
}

/// Writes the audit log under a data directory.
pub struct AuditLogger {
    data_dir: String,
}

impl AuditLogger {
    /// The directory the log lives under.
    pub closed spec fn spec_data_dir(&self) -> Seq<char> {
        self.data_dir@
    }

    pub fn new(data_dir: String) -> (l: Self)
        ensures
            l.spec_data_dir() == data_dir@,
    {
        AuditLogger { data_dir }
    }

    /// The directory the log lives under.
    pub fn data_dir(&self) -> (d: &str)
        ensures
            d@ == self.spec_data_dir(),
    {
        self.data_dir.as_str()
    }

    /// The directory of the log files: `audit` under the data directory.
    pub fn log_dir(&self) -> (d: String)
        ensures
            d@ == spec_join_path(self.spec_data_dir(), "audit"@),
    {
        join_path(self.data_dir.as_str(), "audit")
    }

    /// The log file of the day `date` (written `YYYY-MM-DD`).
    pub fn log_path_for(&self, date: &str) -> (p: String)
        ensures
            p@ == spec_log_path(self.spec_data_dir(), date@),
    {
        let mut name = String::from_str("audit-");
        name.append(date);
        name.append(".log");
        let dir = self.log_dir();
        join_path(dir.as_str(), name.as_str())
    }

    /// The log file of today (in UTC).
    pub fn current_log_path(&self) -> (p: String)
        ensures
            exists|date: Seq<char>| spec_date_shaped(date) && p@ == #[trigger] spec_log_path(self.spec_data_dir(), date),
    {
        let date = today_utc_date();
        self.log_path_for(date.as_str())
    }
}

#[derive(Debug)]
pub enum AuditError {
    IoError(String),
    Serialization(String),
}

/// The text shown for an audit error.
pub open spec fn spec_audit_error_text(e: AuditError) -> Seq<char> {
    match e {
        AuditError::IoError(m) => "IO error: "@ + m@,
        AuditError::Serialization(m) => "Serialization error: "@ + m@,
    }
}

impl AuditError {
    /// The text shown for the error.
    pub fn to_string(&self) -> (s: String)
        ensures
            s@ == spec_audit_error_text(*self),
    {
        match self {
            AuditError::IoError(m) => String::from_str("IO error: ").concat(m.as_str()),
            AuditError::Serialization(m) => String::from_str("Serialization error: ").concat(m.as_str()),
        }
    }
}

} // verus!
