use agent_core::proto::agent::{AgentInfo, AgentState, Heartbeat, AGENT_VERSION};
use agent_core::proto::errors::ProtoError;
use agent_core::proto::messages::RegisterPayload;
use agent_core::proto::protocol::{negotiate_version, PROTOCOL_VERSION};
use agent_core::proto::task::{Task, TaskError, TaskPriority, TaskResult, TaskStatus};

#[test]
fn test_version_negotiation() {
    assert_eq!(negotiate_version(1, 2), 1);
    assert_eq!(negotiate_version(2, 1), 1);
    assert_eq!(negotiate_version(1, 1), 1);
}

#[test]
fn test_agent_info_creation() {
    let info = AgentInfo::new("test-agent".to_string(), vec!["docker".to_string()], "linux".to_string());
    assert_eq!(info.agent_name, "test-agent");
    assert_eq!(info.status, AgentState::Pending);
}

#[test]
fn test_heartbeat() {
    let agent_id = uuid::Uuid::new_v4().as_u128();
    let heartbeat = Heartbeat::new(agent_id, 5, AgentState::Connected);
    assert_eq!(heartbeat.agent_id, agent_id);
    assert_eq!(heartbeat.task_count, 5);
}

#[test]
fn test_proto_error_serialization() {
    let err = ProtoError::InvalidMessage("test error".to_string());
    let serialized = serde_json::to_string(&err.to_string()).unwrap();
    assert!(serialized.contains("test error"));
}

#[test]
fn test_register_payload() {
    let payload = RegisterPayload::new("test-agent".to_string(), vec!["docker".to_string()], "linux".to_string());
    assert_eq!(payload.agent_name, "test-agent");
    assert!(payload.capabilities.contains(&"docker".to_string()));
}

#[test]
fn test_task_creation() {
    let task = Task::new(
        "server.start".to_string(),
        "{\"server_id\":\"test\"}".to_string(),
    );
    assert_eq!(task.task_type, "server.start");
    assert_eq!(task.priority, TaskPriority::Normal);
}

#[test]
fn test_task_result_completed() {
    let started = chrono::Utc::now().timestamp_millis();
    let result = TaskResult::completed(
        uuid::Uuid::new_v4().as_u128(),
        "{\"container_id\":\"abc\"}".to_string(),
        started,
    );
    assert_eq!(result.status, TaskStatus::Completed);
    assert!(result.output.is_some());
}

#[test]
fn agent_identifiers_are_version_four() {
    let info = AgentInfo::new("a".to_string(), vec![], "linux".to_string());
    let parsed = uuid::Uuid::from_u128(info.agent_id);
    assert_eq!(parsed.get_version_num(), 4);
    assert_eq!(info.version, AGENT_VERSION);
    assert!(info.runtime.is_none());
    assert_eq!(AgentState::default(), AgentState::Pending);
}

#[test]
fn proto_error_texts() {
    assert_eq!(ProtoError::VersionMismatch(1, 2).to_string(), "Protocol version mismatch: agent=1, backend=2");
    assert_eq!(ProtoError::Serialization("x".to_string()).to_string(), "Serialization error: x");
    assert_eq!(ProtoError::Deserialization("x".to_string()).to_string(), "Deserialization error: x");
    assert_eq!(ProtoError::TaskNotFound("t1".to_string()).to_string(), "Task not found: t1");
    assert_eq!(ProtoError::InvalidPayload("p".to_string()).to_string(), "Invalid task payload: p");
}

#[test]
fn negotiation_never_exceeds_either_side() {
    for a in 0..5u32 {
        for b in 0..5u32 {
            let v = negotiate_version(a, b);
            assert!(v <= a && v <= b && (v == a || v == b));
        }
    }
    assert_eq!(negotiate_version(PROTOCOL_VERSION, PROTOCOL_VERSION), PROTOCOL_VERSION);
}

#[test]
fn task_builders() {
    let id = 0x1234_u128;
    let t = Task::new("backup.create".to_string(), "{}".to_string())
        .with_priority(TaskPriority::Critical)
        .with_timeout(60)
        .with_id(id)
        .with_authorization("tok".to_string());
    assert_eq!(t.priority, TaskPriority::Critical);
    assert_eq!(t.timeout_secs, 60);
    assert_eq!(t.id, id);
    assert_eq!(t.authorization, "tok");
    assert_eq!(t.clone().payload, "{}");
    assert!(TaskPriority::Critical > TaskPriority::High);
    assert!(TaskPriority::Low < TaskPriority::Normal);
    assert_eq!(TaskPriority::default(), TaskPriority::Normal);
}

#[test]
fn task_error_and_results() {
    let e = TaskError::new("FAILED", "test error", false).with_details("{\"k\":1}".to_string());
    assert_eq!(e.to_string(), "[FAILED] test error");
    assert_eq!(e.details.as_deref(), Some("{\"k\":1}"));
    let failed = TaskResult::failed(7, e.clone(), 100);
    assert_eq!(failed.status, TaskStatus::Failed);
    assert!(failed.output.is_none());
    assert_eq!(failed.error.unwrap().code, "FAILED");
    let late = TaskResult::timed_out(8, 100);
    assert_eq!(late.status, TaskStatus::TimedOut);
    let err = late.error.unwrap();
    assert_eq!(err.code, "TIMEOUT");
    assert_eq!(err.message, "Task timed out");
    assert!(err.retryable);
}

#[test]
fn register_payload_details() {
    let p = RegisterPayload::new("agent".to_string(), vec!["docker".to_string()], "linux".to_string())
        .with_system_info(1024, 4)
        .with_node_info(9, "10.0.0.1".to_string(), "linux".to_string(), Some("4.0".to_string()));
    assert_eq!(p.protocol_version, PROTOCOL_VERSION);
    assert_eq!(p.version, AGENT_VERSION);
    assert_eq!(p.total_memory, Some(1024));
    assert_eq!(p.cpu_cores, Some(4));
    assert_eq!(p.agent_id, Some(9));
    assert_eq!(p.ip, "10.0.0.1");
    assert_eq!(p.os_info.as_deref(), Some("linux"));
    assert_eq!(p.podman_version.as_deref(), Some("4.0"));
}
