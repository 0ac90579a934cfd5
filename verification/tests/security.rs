use agent_core::security::audit::{AuditEntry, AuditError, AuditEvent, AuditLogger, AuditResult};
use agent_core::security::jwt::{contains_text, decode_failure, JwtError, JwtValidator, TaskClaims};
use agent_core::security::ratelimit::RateLimiter;
use std::time::{Duration, Instant};

#[test]
fn test_rate_limiter_allows() {
    let mut limiter = RateLimiter::new();

    let result = limiter.check("server.start");
    assert!(result.is_ok());
}

#[test]
fn test_rate_limiter_respects_limit() {
    let mut limiter = RateLimiter::new();

    for _ in 0..10 {
        limiter.check("server.start").unwrap();
    }

    let result = limiter.check("server.start");
    assert!(result.is_err());
}

#[test]
fn rate_limit_refills_with_time() {
    let mut limiter = RateLimiter::new().with_limits(vec![("job".to_string(), 2, 10)]);
    let now = Instant::now();
    assert!(limiter.check_at("job", now, &Duration::from_secs(0)).is_ok());
    assert!(limiter.check_at("job", now, &Duration::from_secs(0)).is_ok());
    let refused = limiter.check_at("job", now, &Duration::from_secs(1)).unwrap_err();
    assert_eq!(refused.to_string(), "Rate limit exceeded for task type: job");
    assert!(limiter.check_at("job", now, &Duration::from_secs(5)).is_ok());
    assert!(limiter.check_at("server.start", now, &Duration::from_secs(0)).is_ok());
    limiter.reset("job");
    assert!(limiter.check_at("job", now, &Duration::from_secs(0)).is_ok());
}

#[test]
fn unlimited_types_are_never_refused() {
    let mut limiter = RateLimiter::default();
    for _ in 0..100 {
        assert!(limiter.check("no.limit").is_ok());
    }
    for _ in 0..2 {
        limiter.check("backup.restore").unwrap();
    }
    assert!(limiter.check("backup.restore").is_err());
}

#[test]
fn test_jwt_validator_creation() {
    let validator = JwtValidator::new("secret_key".to_string(), uuid::Uuid::new_v4().as_u128());
    assert!(validator.is_ok());
}

#[test]
fn bad_pem_key_is_refused() {
    let r = JwtValidator::new("-----BEGIN PUBLIC KEY-----\nnot a key\n-----END PUBLIC KEY-----".to_string(), 1);
    match r {
        Err(JwtError::Invalid(m)) => assert!(m.starts_with("Invalid PEM: ")),
        _ => panic!("expected an invalid key"),
    }
}

#[test]
fn claims_must_name_agent_and_task() {
    let v = JwtValidator::new("secret".to_string(), 0x11).unwrap();
    assert_eq!(v.agent_id(), 0x11);
    let good = TaskClaims { agent_id: 0x11, task_id: 0x22, exp: 10 };
    assert_eq!(v.check_claims(good, 0x22).unwrap(), good);
    let wrong_agent = TaskClaims { agent_id: 0x12, ..good };
    match v.check_claims(wrong_agent, 0x22) {
        Err(e @ JwtError::WrongAgent { .. }) => assert_eq!(
            e.to_string(),
            "Task JWT is for wrong agent (expected 00000000-0000-0000-0000-000000000011, got 00000000-0000-0000-0000-000000000012)"
        ),
        _ => panic!("expected a wrong agent"),
    }
    assert!(matches!(v.check_claims(good, 0x23), Err(JwtError::TaskIdMismatch)));
}

#[test]
fn jwt_error_texts() {
    assert_eq!(decode_failure(true, "x".to_string()).to_string(), "Token expired at Token has expired");
    assert_eq!(decode_failure(false, "bad sig".to_string()).to_string(), "Invalid JWT: bad sig");
    assert_eq!(JwtError::TaskIdMismatch.to_string(), "Task ID in JWT does not match task.id");
    assert_eq!(JwtError::MissingClaim.to_string(), "Missing required claim");
    assert!(contains_text("xxBEGINyy", "BEGIN"));
    assert!(!contains_text("BEGI", "BEGIN"));
    assert!(contains_text("abc", ""));
}

#[test]
fn audit_log_path_is_dated() {
    let logger = AuditLogger::new("/tmp/agent-data".to_string());
    let date = chrono::Utc::now().format("%Y-%m-%d").to_string();
    assert_eq!(logger.current_log_path(), format!("/tmp/agent-data/audit/audit-{}.log", date));
}

#[test]
fn audit_paths_and_entries() {
    let logger = AuditLogger::new("/data".to_string());
    assert_eq!(logger.data_dir(), "/data");
    assert_eq!(logger.log_dir(), "/data/audit");
    assert_eq!(logger.log_path_for("2024-01-02"), "/data/audit/audit-2024-01-02.log");
    let e = AuditEntry::task_failed(1, 2, "boom");
    assert!(matches!(e.event, AuditEvent::TaskFailed));
    assert!(matches!(e.result, Some(AuditResult::Failed { ref error }) if error == "boom"));
    let r = AuditEntry::task_received(1, 2, "server.start");
    assert_eq!(r.task_type.as_deref(), Some("server.start"));
    assert_eq!(r.task_id, Some(2));
    let c = AuditEntry::task_completed(1, 2);
    assert!(matches!(c.result, Some(AuditResult::Success)));
    let a = AuditEntry::agent_registered(9);
    assert_eq!(a.agent_id, 9);
    assert!(a.task_id.is_none());
    assert_eq!(AuditError::IoError("disk".to_string()).to_string(), "IO error: disk");
    assert_eq!(AuditError::Serialization("json".to_string()).to_string(), "Serialization error: json");
}

#[test]
fn current_log_path_has_a_dated_name() {
    let logger = AuditLogger::new("/srv".to_string());
    let path = logger.current_log_path();
    let name = path.strip_prefix("/srv/audit/audit-").unwrap();
    let date = name.strip_suffix(".log").unwrap();
    let b = date.as_bytes();
    let n = b.len();
    assert!(n >= 10);
    assert_eq!(b[n - 6], b'-');
    assert_eq!(b[n - 3], b'-');
    assert!(b[n - 5].is_ascii_digit() && b[n - 4].is_ascii_digit());
    assert!(b[n - 2].is_ascii_digit() && b[n - 1].is_ascii_digit());
}
