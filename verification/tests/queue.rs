use agent_core::dispatch::dispatcher::{task_result_of, HandlerOutcome};
use agent_core::dispatch::queue::TaskQueue;
use agent_core::proto::task::{Task, TaskError, TaskPriority, TaskStatus};

#[test]
fn test_enqueue_dequeue() {
    let mut queue = TaskQueue::new();

    let task1 = Task::new("server.start".to_string(), "{}".to_string());
    let task2 = Task::new("server.stop".to_string(), "{}".to_string())
        .with_priority(TaskPriority::High);

    queue.enqueue(task1.clone());
    queue.enqueue(task2.clone());

    assert_eq!(queue.len(), 2);

    let dequeued = queue.dequeue().unwrap();
    assert_eq!(dequeued.priority, TaskPriority::High);
}

#[test]
fn test_priority_ordering() {
    let mut queue = TaskQueue::new();

    let low = Task::new("a".to_string(), "{}".to_string()).with_priority(TaskPriority::Low);
    let high = Task::new("b".to_string(), "{}".to_string()).with_priority(TaskPriority::High);

    queue.enqueue(low);
    queue.enqueue(high);

    let first = queue.dequeue().unwrap();
    assert_eq!(first.priority, TaskPriority::High);
}

#[test]
fn equal_priorities_leave_in_arrival_order() {
    let mut queue = TaskQueue::default();
    let a = Task::new("a".to_string(), "{}".to_string()).with_id(1);
    let b = Task::new("b".to_string(), "{}".to_string()).with_id(2);
    let c = Task::new("c".to_string(), "{}".to_string()).with_id(3).with_priority(TaskPriority::Critical);
    queue.enqueue(a);
    queue.enqueue(b);
    queue.enqueue(c);
    assert_eq!(queue.dequeue().unwrap().id, 3);
    assert_eq!(queue.dequeue().unwrap().id, 1);
    assert_eq!(queue.dequeue().unwrap().id, 2);
    assert!(queue.dequeue().is_none());
    assert_eq!(queue.get(1).unwrap().status, TaskStatus::Running);
    assert_eq!(queue.len(), 0);
}

#[test]
fn queue_records_and_removal() {
    let mut queue = TaskQueue::new();
    assert!(queue.is_empty());
    queue.enqueue(Task::new("a".to_string(), "{}".to_string()).with_id(10));
    queue.enqueue(Task::new("b".to_string(), "{}".to_string()).with_id(11));
    assert_eq!(queue.get(10).unwrap().status, TaskStatus::Pending);
    queue.update_status(10, TaskStatus::Cancelled);
    assert_eq!(queue.get(10).unwrap().status, TaskStatus::Cancelled);
    let pending = queue.get_all_pending();
    assert_eq!(pending.len(), 1);
    assert_eq!(pending[0].task.id, 11);
    let removed = queue.remove(11).unwrap();
    assert_eq!(removed.task.task_type, "b");
    assert!(queue.get(11).is_none());
    assert!(queue.remove(11).is_none());
}

#[test]
fn test_dispatch_success() {
    let task = Task::new("test".to_string(), "{}".to_string());
    let started = chrono::Utc::now().timestamp_millis();
    let outcome = HandlerOutcome::Returned(Ok("{\"status\":\"ok\"}".to_string()));

    let result = task_result_of(task.id, started, outcome);

    assert!(result.output.is_some());
}

#[test]
fn test_dispatch_failure() {
    let task = Task::new("test".to_string(), "{}".to_string());
    let started = chrono::Utc::now().timestamp_millis();
    let outcome = HandlerOutcome::Returned(Err(TaskError::new("FAILED", "test error", false)));

    let result = task_result_of(task.id, started, outcome);

    assert!(result.error.is_some());
}

#[test]
fn dispatch_timeout() {
    let result = task_result_of(5, 42, HandlerOutcome::TimedOut);
    assert_eq!(result.status, TaskStatus::TimedOut);
    assert_eq!(result.task_id, 5);
    assert_eq!(result.started_at, 42);
    assert_eq!(result.error.unwrap().code, "TIMEOUT");
}
