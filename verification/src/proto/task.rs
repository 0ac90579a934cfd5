//! Tasks sent by the backend, their priorities, results and errors.

use crate::clock::{new_uuid_v4, now_unix_millis};
use vstd::prelude::*;

verus! {

/// The view of an optional text.
pub open spec fn opt_text(o: Option<String>) -> Option<Seq<char>> {
    match o {
        Some(s) => Some(s@),
        None => None,
    }
}

/// Clones an optional text.
pub fn clone_opt_text(o: &Option<String>) -> (r: Option<String>)
    ensures
        opt_text(r) == opt_text(*o),
{
    match o {
        Some(s) => Some(s.clone()),
        None => None,
    }
}

/// How urgent a task is; later variants are more urgent.
#[derive(Debug, Clone, Copy, PartialEq, Eq, Structural, PartialOrd, Ord, Hash)]
pub enum TaskPriority {
    Low,
    Normal,
    High,
    Critical,
}

impl TaskPriority {
    /// The rank of a priority: Low 0, Normal 1, High 2, Critical 3.
    pub open spec fn spec_rank(self) -> u8 {
        match self {
            TaskPriority::Low => 0,
            TaskPriority::Normal => 1,
            TaskPriority::High => 2,
            TaskPriority::Critical => 3,
        }
    }

    #[verifier::when_used_as_spec(spec_rank)]
    pub fn rank(self) -> (r: u8)
        ensures
            r == self.spec_rank(),
    {
        match self {
            TaskPriority::Low => 0,
            TaskPriority::Normal => 1,
            TaskPriority::High => 2,
            TaskPriority::Critical => 3,
        }
    }
}

impl Default for TaskPriority {
    fn default() -> (p: Self)
        ensures
            p == TaskPriority::Normal,
    {
        TaskPriority::Normal
    }
}

#[derive(Debug, Clone, Copy, PartialEq, Eq, Structural)]
pub enum TaskStatus {
    Pending,
    Running,
    Completed,
    Failed,
    Cancelled,
    TimedOut,
}

/// The abstract content of a task.
pub struct TaskView {
    pub id: u128,
    pub task_type: Seq<char>,
    pub payload: Seq<char>,
    pub priority: TaskPriority,
    pub timeout_secs: u64,
    pub depends_on: Seq<u128>,
    pub created_at: i64,
    pub idempotency_key: Option<Seq<char>>,
    pub authorization: Seq<char>,
}

/// A unit of work sent by the backend. Identifiers are 128-bit UUID
/// values, the payload is JSON text and `created_at` is in milliseconds
/// since the Unix epoch.
#[derive(Debug)]
pub struct Task {
    pub id: u128,
    pub task_type: String,
    pub payload: String,
    pub priority: TaskPriority,
    pub timeout_secs: u64,
    pub depends_on: Vec<u128>,
    pub created_at: i64,
    pub idempotency_key: Option<String>,
    pub authorization: String,
}

impl View for Task {
    type V = TaskView;

    open spec fn view(&self) -> TaskView {
        TaskView {
            id: self.id,
            task_type: self.task_type@,
            payload: self.payload@,
            priority: self.priority,
            timeout_secs: self.timeout_secs,
            depends_on: self.depends_on@,
            created_at: self.created_at,
            idempotency_key: opt_text(self.idempotency_key),
            authorization: self.authorization@,
        }
    }
}

impl Clone for Task {
    fn clone(&self) -> (r: Self)
        ensures
            r@ == self@,
    {
        let depends_on = self.depends_on.clone();
        assert(depends_on@ =~= self.depends_on@);
        Task {
            id: self.id,
            task_type: self.task_type.clone(),
            payload: self.payload.clone(),
            priority: self.priority,
            timeout_secs: self.timeout_secs,
            depends_on,
            created_at: self.created_at,
            idempotency_key: clone_opt_text(&self.idempotency_key),
            authorization: self.authorization.clone(),
        }
    }
}

impl Task {
    /// A new task of normal priority with a fresh random identifier, a
    /// timeout of 300 seconds, no dependencies, no idempotency key and an
    /// empty authorization, created now.
    pub fn new(task_type: String, payload: String) -> (t: Self)
        ensures
            t.task_type@ == task_type@,
            t.payload@ == payload@,
            t.priority == TaskPriority::Normal,
            t.timeout_secs == 300,
            t.depends_on@ == Seq::<u128>::empty(),
            t.idempotency_key is None,
            t.authorization@ == Seq::<char>::empty(),
            (t.id >> 76u128) & 0xfu128 == 4,
    {
        Task {
            id: new_uuid_v4(),
            task_type,
            payload,
            priority: TaskPriority::Normal,
            timeout_secs: 300,
            depends_on: Vec::new(),
            created_at: now_unix_millis(),
            idempotency_key: None,
            authorization: String::new(),
        }
    }

    pub fn with_priority(self, priority: TaskPriority) -> (t: Self)
        ensures
            t@ == (TaskView { priority, ..self@ }),
    {
        Task { priority, ..self }
    }

    pub fn with_timeout(self, timeout_secs: u64) -> (t: Self)
        ensures
            t@ == (TaskView { timeout_secs, ..self@ }),
    {
        Task { timeout_secs, ..self }
    }

    pub fn with_id(self, id: u128) -> (t: Self)
        ensures
            t@ == (TaskView { id, ..self@ }),
    {
        Task { id, ..self }
    }

    pub fn with_authorization(self, authorization: String) -> (t: Self)
        ensures
            t@ == (TaskView { authorization: authorization@, ..self@ }),
    {
        Task { authorization, ..self }
    }
}

/// The abstract content of a task error.
pub struct TaskErrorView {
    pub code: Seq<char>,
    pub message: Seq<char>,
    pub retryable: bool,
    pub details: Option<Seq<char>>,
}

/// Why a task failed. `details` is JSON text.
#[derive(Debug)]
pub struct TaskError {
    pub code: String,
    pub message: String,
    pub retryable: bool,
    pub details: Option<String>,
}

impl View for TaskError {
    type V = TaskErrorView;

    open spec fn view(&self) -> TaskErrorView {
        TaskErrorView {
            code: self.code@,
            message: self.message@,
            retryable: self.retryable,
            details: opt_text(self.details),
        }
    }
}

impl Clone for TaskError {
    fn clone(&self) -> (r: Self)
        ensures
            r@ == self@,
    {
        TaskError {
            code: self.code.clone(),
            message: self.message.clone(),
            retryable: self.retryable,
            details: clone_opt_text(&self.details),
        }
    }
}

/// The text of a task error as it is shown: `[code] message`.
pub open spec fn spec_task_error_text(code: Seq<char>, message: Seq<char>) -> Seq<char> {
    seq!['['] + code + seq![']', ' '] + message
}

impl TaskError {
    pub fn new(code: &str, message: &str, retryable: bool) -> (e: Self)
        ensures
            e@ == (TaskErrorView { code: code@, message: message@, retryable, details: None }),
    {
        TaskError {
            code: String::from_str(code),
            message: String::from_str(message),
            retryable,
            details: None,
        }
    }

    pub fn with_details(self, details: String) -> (e: Self)
        ensures
            e@ == (TaskErrorView { details: Some(details@), ..self@ }),
    {
        TaskError { details: Some(details), ..self }
    }

    /// The text shown for the error: `[code] message`.
    pub fn to_string(&self) -> (s: String)
        ensures
            s@ == spec_task_error_text(self.code@, self.message@),
    {
        let mut s = String::from_str("[");
        s.append(self.code.as_str());
        s.append("] ");
        s.append(self.message.as_str());
        proof {
            reveal_strlit("[");
            reveal_strlit("] ");
            assert(s@ =~= spec_task_error_text(self.code@, self.message@));
        }
        s
    }
}

/// The outcome of a task. `output` is JSON text; times are milliseconds
/// since the Unix epoch.
#[derive(Debug)]
pub struct TaskResult {
    pub task_id: u128,
    pub status: TaskStatus,
    pub output: Option<String>,
    pub error: Option<TaskError>,
    pub started_at: i64,
    pub ended_at: i64,
    pub retry_count: u32,
}

impl TaskResult {
    /// A completed task with its output, ended now.
    pub fn completed(task_id: u128, output: String, started_at: i64) -> (r: Self)
        ensures
            r.task_id == task_id,
            r.status == TaskStatus::Completed,
            opt_text(r.output) == Some(output@),
            r.error is None,
            r.started_at == started_at,
            r.retry_count == 0,
    {
        TaskResult {
            task_id,
            status: TaskStatus::Completed,
            output: Some(output),
            error: None,
            started_at,
            ended_at: now_unix_millis(),
            retry_count: 0,
        }
    }

    /// A failed task with its error, ended now.
    pub fn failed(task_id: u128, error: TaskError, started_at: i64) -> (r: Self)
        ensures
            r.task_id == task_id,
            r.status == TaskStatus::Failed,
            r.output is None,
            r.error is Some && r.error->Some_0@ == error@,
            r.started_at == started_at,
            r.retry_count == 0,
    {
        TaskResult {
            task_id,
            status: TaskStatus::Failed,
            output: None,
            error: Some(error),
            started_at,
            ended_at: now_unix_millis(),
            retry_count: 0,
        }
    }

    /// A task that ran out of time: its error is the retryable `TIMEOUT`
    /// error "Task timed out".
    pub fn timed_out(task_id: u128, started_at: i64) -> (r: Self)
        ensures
            r.task_id == task_id,
            r.status == TaskStatus::TimedOut,
            r.output is None,
            r.error is Some,
            r.error->Some_0@ == (TaskErrorView { code: "TIMEOUT"@, message: "Task timed out"@, retryable: true, details: None }),
            r.started_at == started_at,
            r.retry_count == 0,
    {
        TaskResult {
            task_id,
            status: TaskStatus::TimedOut,
            output: None,
            error: Some(TaskError::new("TIMEOUT", "Task timed out", true)),
            started_at,
            ended_at: now_unix_millis(),
            retry_count: 0,
        }
    }
}

} // verus!
