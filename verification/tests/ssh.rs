use agent_core::ssh::{auth_method, check_authenticated, host_port, SshAuth, SshPool};

#[test]
fn test_pool_creation() {
    let pool: SshPool<String> = SshPool::new(5, 600);
    assert_eq!(pool.len(), 0);
}

#[test]
fn pool_keeps_clients_by_key() {
    let mut pool: SshPool<u32> = SshPool::default();
    pool.put_client("a".to_string(), 1);
    pool.put_client("b".to_string(), 2);
    pool.put_client("a".to_string(), 3);
    assert_eq!(pool.len(), 2);
    assert_eq!(pool.get_client("a"), Some(&3));
    pool.remove_client("a");
    assert_eq!(pool.get_client("a"), None);
    pool.clear();
    assert_eq!(pool.len(), 0);
}

#[test]
fn full_pool_evicts_one_client() {
    let mut pool: SshPool<u32> = SshPool::new(2, 60);
    pool.put_client("a".to_string(), 1);
    pool.put_client("b".to_string(), 2);
    pool.put_client("c".to_string(), 3);
    assert_eq!(pool.len(), 2);
    assert_eq!(pool.get_client("c"), Some(&3));
    let mut empty: SshPool<u32> = SshPool::new(0, 60);
    empty.put_client("x".to_string(), 1);
    assert_eq!(empty.len(), 1);
}

#[test]
fn ssh_login_choices() {
    assert!(matches!(auth_method(Some("pw"), Some("/k")), Ok(SshAuth::Password(p)) if p == "pw"));
    assert!(matches!(auth_method(None, Some("/k")), Ok(SshAuth::KeyFile(k)) if k == "/k"));
    let e = auth_method(None, None).unwrap_err();
    assert_eq!(e.code, "NO_AUTH_METHOD");
    assert_eq!(e.message, "Either password or key required");
    assert!(check_authenticated(true).is_ok());
    assert_eq!(check_authenticated(false).unwrap_err().code, "AUTH_FAILED");
    assert_eq!(host_port("localhost", 22), "localhost:22");
    assert_eq!(host_port("10.0.0.1", 25575), "10.0.0.1:25575");
}
