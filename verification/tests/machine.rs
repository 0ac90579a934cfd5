use agent_core::metrics::{network_totals, DiskUsage, ProcessStatus};
use agent_core::runtime::{RuntimeDetector, RuntimeProbe, RuntimeType};

fn probe(ok: bool, out: &str, socket: bool) -> Option<RuntimeProbe> {
    Some(RuntimeProbe { succeeded: ok, stdout: out.as_bytes().to_vec(), socket_available: socket })
}

#[test]
fn runtime_choice() {
    let d = RuntimeDetector::from_probes(probe(true, " 24.0.7\n", false), probe(true, "4.9", true));
    assert_eq!(d.runtime, RuntimeType::Docker);
    assert_eq!(d.version.as_deref(), Some("24.0.7"));
    assert!(!d.available);
    assert!(d.docker().is_none());
    assert!(d.is_docker());
    assert_eq!(d.runtime_name(), "docker");

    let p = RuntimeDetector::from_probes(probe(false, "", true), probe(true, "4.9\n", true));
    assert_eq!(p.runtime, RuntimeType::Podman);
    assert_eq!(p.version.as_deref(), Some("4.9"));
    assert!(p.available);
    assert!(p.is_podman());
    assert_eq!(p.runtime_name(), "podman");

    let n = RuntimeDetector::from_probes(None, probe(false, "x", true));
    assert_eq!(n.runtime, RuntimeType::NoRuntime);
    assert!(n.version.is_none());
    assert!(!n.available);
    assert_eq!(n.runtime_name(), "none");
}

#[test]
fn disk_and_network_figures() {
    let d = DiskUsage::from_space("/".to_string(), 100, 30);
    assert_eq!(d.used_bytes, 70);
    assert_eq!(d.total_bytes, 100);
    assert_eq!(network_totals(&[(1, 2), (10, 20), (100, 200)]), (111, 222));
    assert_eq!(network_totals(&[]), (0, 0));
    assert_ne!(ProcessStatus::Running, ProcessStatus::Zombie);
}
