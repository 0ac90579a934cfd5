//! The result of running a task: what a handler's outcome, or its running
//! out of time, makes of the task. Running the handler under its time limit
//! is left to the caller.

use crate::proto::task::{opt_text, TaskError, TaskErrorView, TaskResult, TaskStatus};
use vstd::prelude::*;

verus! {

/// How a task's handler ended.
#[derive(Debug)]
pub enum HandlerOutcome {
    /// The handler returned within the time limit; `Ok` holds its output as
    /// JSON text.
    Returned(Result<String, TaskError>),
    /// The time limit passed first.
    TimedOut,
}

/// The result recorded for a task that started at `started_at`: completed
/// with the handler's output, failed with its error, or timed out.
pub fn task_result_of(task_id: u128, started_at: i64, outcome: HandlerOutcome) -> (r: TaskResult)
    ensures
        r.task_id == task_id,
        r.started_at == started_at,
        r.retry_count == 0,
        match outcome {
            HandlerOutcome::Returned(Ok(output)) => r.status == TaskStatus::Completed && opt_text(r.output) == Some(output@)
                && r.error is None,
            HandlerOutcome::Returned(Err(error)) => r.status == TaskStatus::Failed && r.output is None && r.error is Some
                && r.error->Some_0@ == error@,
            HandlerOutcome::TimedOut => r.status == TaskStatus::TimedOut && r.output is None && r.error is Some
                && r.error->Some_0@ == (TaskErrorView {
                code: "TIMEOUT"@,
                message: "Task timed out"@,
                retryable: true,
                details: None,
            }),
        },
{
    match outcome {
        HandlerOutcome::Returned(Ok(output)) => TaskResult::completed(task_id, output, started_at),
        HandlerOutcome::Returned(Err(error)) => TaskResult::failed(task_id, error, started_at),
        HandlerOutcome::TimedOut => TaskResult::timed_out(task_id, started_at),
    }
}

} // verus!
