use agent_core::capability::{can_handle, required_for, Capability, CapabilityRegistry};

#[test]
fn test_capability_registry() {
    let mut registry = CapabilityRegistry::new();

    registry.register(Capability::Docker);
    assert!(registry.has(&Capability::Docker));
    assert!(!registry.has(&Capability::Podman));
}

#[test]
fn test_required_for() {
    assert!(required_for("server.start").contains(&Capability::ServerStart));
    assert!(required_for("ssh.execute").contains(&Capability::SSH));
}

#[test]
fn test_can_handle() {
    let mut registry = CapabilityRegistry::new();
    registry.register(Capability::ServerStart);

    assert!(can_handle(&registry, "server.start"));
    assert!(!can_handle(&registry, "server.stop"));
}

#[test]
fn registering_twice_keeps_one_entry() {
    let mut registry = CapabilityRegistry::new();
    registry.register(Capability::Metrics);
    registry.register(Capability::Metrics);
    assert_eq!(registry.iter().len(), 1);
    registry.remove(&Capability::Metrics);
    assert!(!registry.has(&Capability::Metrics));
    assert!(registry.iter().is_empty());
}

#[test]
fn has_all_needs_every_capability() {
    let mut registry = CapabilityRegistry::new();
    registry.register(Capability::Docker);
    registry.register(Capability::ServerStart);
    assert!(registry.has_all(&[Capability::Docker, Capability::ServerStart]));
    assert!(!registry.has_all(&[Capability::Docker, Capability::ServerStop]));
    assert!(registry.has_all(&[]));
}

#[test]
fn capability_names() {
    assert_eq!(Capability::ServerStart.to_string(), "server_start");
    assert_eq!(Capability::LocalCommand.to_string(), "local_command");
    assert_eq!(Capability::SSH.to_string(), "ssh");
    let mut registry = CapabilityRegistry::new();
    registry.register(Capability::Podman);
    registry.register(Capability::BackupCreate);
    let mut names = registry.to_string_list();
    names.sort();
    assert_eq!(names, vec!["backup_create".to_string(), "podman".to_string()]);
}

#[test]
fn unknown_task_type_is_never_handled() {
    assert!(required_for("no.such.task").is_empty());
    let mut registry = CapabilityRegistry::new();
    for c in [
        Capability::Docker,
        Capability::Podman,
        Capability::SSH,
        Capability::ServerStart,
        Capability::Metrics,
    ] {
        registry.register(c);
    }
    assert!(!can_handle(&registry, "no.such.task"));
}

#[test]
fn required_capabilities_of_known_types() {
    assert_eq!(required_for("server.stop"), vec![Capability::ServerStop]);
    assert_eq!(required_for("backup.create"), vec![Capability::BackupCreate]);
    let mut registry = CapabilityRegistry::new();
    for c in required_for("backup.create") {
        registry.register(c);
    }
    assert!(can_handle(&registry, "backup.create"));
}
