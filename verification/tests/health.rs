use agent_core::health::circuit_breaker::{CircuitBreaker, CircuitError, CircuitState};
use agent_core::health::monitor::{HealthEvent, HealthMonitor, HealthStatus};
use agent_core::health::retry::{retry_step, IsTransient, RetryError, RetryStep, TransientError};
use std::time::{Duration, Instant};

fn wait(d: Duration) {
    let start = Instant::now();
    while start.elapsed() < d {}
}

#[test]
fn test_circuit_breaker_closed() {
    let mut cb = CircuitBreaker::new();
    assert_eq!(cb.state(), CircuitState::Closed);
    assert!(cb.is_available());
}

#[test]
fn test_circuit_breaker_opens_on_failures() {
    let mut cb = CircuitBreaker::new().with_failure_threshold(3);

    for _ in 0..3 {
        cb.record_failure();
    }

    assert_eq!(cb.state(), CircuitState::Open);
    assert!(!cb.is_available());
}

#[test]
fn test_circuit_breaker_half_open() {
    let mut cb = CircuitBreaker::new()
        .with_failure_threshold(2)
        .with_open_duration(Duration::from_millis(50));

    cb.record_failure();
    cb.record_failure();
    assert_eq!(cb.state(), CircuitState::Open);

    wait(Duration::from_millis(100));

    assert_eq!(cb.state(), CircuitState::HalfOpen);
}

#[test]
fn half_open_breaker_closes_after_successes() {
    let mut cb = CircuitBreaker::new()
        .with_failure_threshold(1)
        .with_success_threshold(2)
        .with_open_duration(Duration::from_secs(1));
    cb.record_failure();
    assert_eq!(cb.state_after(&Duration::from_millis(999)), CircuitState::Open);
    assert_eq!(cb.state_after(&Duration::from_secs(1)), CircuitState::HalfOpen);
    cb.record_success_after(&Duration::from_secs(2));
    assert_eq!(cb.state_after(&Duration::from_secs(2)), CircuitState::HalfOpen);
    cb.record_success_after(&Duration::from_secs(2));
    assert_eq!(cb.state_after(&Duration::from_secs(2)), CircuitState::Closed);
}

#[test]
fn success_clears_failures() {
    let mut cb = CircuitBreaker::new().with_failure_threshold(3);
    cb.record_failure();
    cb.record_failure();
    cb.record_success();
    cb.record_failure();
    cb.record_failure();
    assert_eq!(cb.state(), CircuitState::Closed);
    cb.record_failure();
    assert_eq!(cb.state(), CircuitState::Open);
}

#[test]
fn settle_passes_values_and_wraps_errors() {
    let mut cb = CircuitBreaker::new().with_failure_threshold(1);
    let ok: Result<u32, CircuitError<&str>> = cb.settle(Ok::<u32, &str>(7));
    assert_eq!(ok.unwrap(), 7);
    let err = cb.settle(Err::<u32, &str>("boom"));
    assert!(matches!(err, Err(CircuitError::Inner("boom"))));
    assert!(!cb.is_available());
}

#[test]
fn test_health_monitor() {
    let mut monitor = HealthMonitor::new();

    monitor.register_check("test");
    assert_eq!(monitor.get_status("test"), Some(HealthStatus::Unknown));

    monitor.update_status("test", HealthStatus::Healthy, Some("OK".to_string()));
    assert_eq!(monitor.get_status("test"), Some(HealthStatus::Healthy));

    assert!(monitor.is_healthy());
}

#[test]
fn monitor_announces_changes_only() {
    let mut monitor = HealthMonitor::default();
    let mut rx = monitor.subscribe();
    monitor.register_check("db");
    monitor.update_status("db", HealthStatus::Unknown, None);
    monitor.update_status("db", HealthStatus::Unhealthy, Some("down".to_string()));
    monitor.update_status("missing", HealthStatus::Healthy, None);
    match rx.receiver.try_recv().unwrap() {
        HealthEvent::CheckStarted { name } => assert_eq!(name, "db"),
        other => panic!("unexpected {:?}", other),
    }
    match rx.receiver.try_recv().unwrap() {
        HealthEvent::StatusChanged { name, old, new } => {
            assert_eq!(name, "db");
            assert_eq!(old, HealthStatus::Unknown);
            assert_eq!(new, HealthStatus::Unhealthy);
        },
        other => panic!("unexpected {:?}", other),
    }
    assert!(rx.receiver.try_recv().is_err());
    assert_eq!(monitor.get_status("missing"), None);
    assert!(!monitor.is_healthy());
}

#[test]
fn monitor_lists_every_check_once() {
    let mut monitor = HealthMonitor::new();
    assert!(monitor.is_healthy());
    monitor.register_check("a");
    monitor.register_check("b");
    monitor.register_check("a");
    monitor.update_status("b", HealthStatus::Healthy, None);
    let mut all = monitor.get_all_statuses();
    all.sort_by(|x, y| x.0.cmp(&y.0));
    assert_eq!(all, vec![("a".to_string(), HealthStatus::Unknown), ("b".to_string(), HealthStatus::Healthy)]);
}

fn run_retry<T, E: IsTransient>(max: u32, transient_only: bool, op: impl Fn(u32) -> Result<T, E>) -> (Result<T, RetryError<E>>, u32) {
    let mut attempt = 1;
    loop {
        match retry_step(attempt, max, transient_only, op(attempt)) {
            RetryStep::Done(v) => return (Ok(v), attempt),
            RetryStep::GiveUp(e) => return (Err(e), attempt),
            RetryStep::Again => attempt += 1,
        }
    }
}

struct AttemptError(u32);

impl IsTransient for AttemptError {
    fn is_transient(&self) -> bool {
        self.0 < 2
    }
}

#[test]
fn test_retry_success_first_try() {
    let (result, attempts) = run_retry(3, false, |_| Ok::<_, TransientError>("success"));

    assert_eq!(result.unwrap(), "success");
    assert_eq!(attempts, 1);
}

#[test]
fn test_retry_exhausted() {
    let (result, _) = run_retry(3, false, |attempt| Err::<(), _>(AttemptError(attempt)));

    assert!(matches!(result, Err(RetryError::Exhausted { attempts: 3, .. })));
}

#[test]
fn permanent_errors_stop_retrying() {
    let (result, attempts) = run_retry(5, true, |attempt| Err::<(), _>(AttemptError(attempt)));
    assert!(matches!(result, Err(RetryError::Permanent { error: AttemptError(2) })));
    assert_eq!(attempts, 2);
    let (later, n) = run_retry(5, false, |attempt| if attempt < 4 { Err(AttemptError(attempt)) } else { Ok(attempt) });
    assert!(matches!(later, Ok(4)));
    assert_eq!(n, 4);
}

#[test]
fn transient_error_texts() {
    assert!(TransientError::ConnectionRefused.is_transient());
    assert_eq!(TransientError::NetworkError("reset".to_string()).to_string(), "NetworkError: reset");
    assert_eq!(TransientError::TimeoutError("5s".to_string()).to_string(), "TimeoutError: 5s");
    assert_eq!(TransientError::ServiceUnavailable.to_string(), "ServiceUnavailable");
}

#[test]
fn open_breaker_refuses_calls() {
    let mut cb = CircuitBreaker::new().with_failure_threshold(1);
    assert!(cb.let_through::<()>().is_ok());
    cb.record_failure();
    assert!(matches!(cb.let_through::<()>(), Err(CircuitError::Open)));
}
