use lazymc_docker_proxy::backend::BackendType;
use lazymc_docker_proxy::discovery::environment_from_entries;
use lazymc_docker_proxy::discovery::refine_labels;
use lazymc_docker_proxy::discovery::split_env_entry;
use lazymc_docker_proxy::metadata::Metadata;

#[test]
fn explicit_override_beats_auto_detection() {
    assert_eq!(
        BackendType::detect(&Some("kubernetes".to_string()), false, true),
        BackendType::Kubernetes
    );
    assert_eq!(
        BackendType::detect(&Some("k8s".to_string()), false, true),
        BackendType::Kubernetes
    );
    assert_eq!(
        BackendType::detect(&Some("docker".to_string()), true, false),
        BackendType::Docker
    );
}

#[test]
fn unknown_override_falls_back_to_auto_detection() {
    assert_eq!(
        BackendType::detect(&Some("podman".to_string()), true, false),
        BackendType::Kubernetes
    );
    assert_eq!(
        BackendType::detect(&Some("podman".to_string()), false, true),
        BackendType::Docker
    );
}

#[test]
fn auto_detection_prefers_the_cluster_marker() {
    assert_eq!(BackendType::auto_detect(true, true), BackendType::Kubernetes);
    assert_eq!(BackendType::auto_detect(true, false), BackendType::Kubernetes);
    assert_eq!(BackendType::auto_detect(false, true), BackendType::Docker);
}

#[test]
fn auto_detection_defaults_to_docker() {
    assert_eq!(BackendType::auto_detect(false, false), BackendType::Docker);
    assert_eq!(BackendType::detect(&None, false, false), BackendType::Docker);
}

#[test]
fn split_env_entry_splits_at_first_equals() {
    assert_eq!(
        split_env_entry("LAZYMC_GROUP=alice"),
        Some(("LAZYMC_GROUP".to_string(), "alice".to_string()))
    );
    assert_eq!(
        split_env_entry("A=b=c"),
        Some(("A".to_string(), "b=c".to_string()))
    );
    assert_eq!(split_env_entry("=x"), Some(("".to_string(), "x".to_string())));
    assert_eq!(split_env_entry("no separator"), None);
}

#[test]
fn environment_entries_build_metadata_in_order() {
    let entries = vec![
        "LAZYMC_GROUP=alice".to_string(),
        "bare".to_string(),
        "LAZYMC_ENABLED=true".to_string(),
    ];
    let env = environment_from_entries(&entries);
    assert_eq!(env.len(), 2);
    assert_eq!(env.get("LAZYMC_GROUP"), Some(&"alice".to_string()));
    assert_eq!(env.get("LAZYMC_ENABLED"), Some(&"true".to_string()));
    assert_eq!(env.get("bare"), None);
}

#[test]
fn metadata_insert_shadows_earlier_entries() {
    let mut m = Metadata::new();
    m.insert("k".to_string(), "old".to_string());
    m.insert("k".to_string(), "new".to_string());
    assert_eq!(m.get("k"), Some(&"new".to_string()));
    assert_eq!(m.get("missing"), None);
}

#[test]
fn metadata_has_all_checks_required_pairs() {
    let mut m = Metadata::new();
    m.insert("LAZYMC_ENABLED".to_string(), "true".to_string());
    m.insert("LAZYMC_GROUP".to_string(), "alice".to_string());
    let enabled = vec![("LAZYMC_ENABLED".to_string(), "true".to_string())];
    assert!(m.has_all(&enabled));
    let wrong_group = vec![
        ("LAZYMC_ENABLED".to_string(), "true".to_string()),
        ("LAZYMC_GROUP".to_string(), "bob".to_string()),
    ];
    assert!(!m.has_all(&wrong_group));
    let missing = vec![("LAZYMC_PORT".to_string(), "25565".to_string())];
    assert!(!m.has_all(&missing));
}

#[test]
fn refine_prefers_the_backend_assigned_address() {
    let mut raw = Metadata::new();
    raw.insert("lazymc.group".to_string(), "alice".to_string());
    raw.insert(
        "lazymc.server.address".to_string(),
        "mc:25565".to_string(),
    );
    let refined = refine_labels(&raw, &Some("10.1.2.3".to_string()));
    assert_eq!(
        refined.get("lazymc.server.address"),
        Some(&"10.1.2.3:25565".to_string())
    );
    assert_eq!(refined.get("lazymc.group"), Some(&"alice".to_string()));
}

#[test]
fn refine_without_backend_address_keeps_the_declared_endpoint() {
    let mut raw = Metadata::new();
    raw.insert(
        "lazymc.server.address".to_string(),
        "mc:25565".to_string(),
    );
    let refined = refine_labels(&raw, &None);
    assert_eq!(
        refined.get("lazymc.server.address"),
        Some(&"mc:25565".to_string())
    );
}

#[test]
fn refine_without_a_port_keeps_the_declared_endpoint() {
    let mut raw = Metadata::new();
    raw.insert("lazymc.server.address".to_string(), "plainhost".to_string());
    let refined = refine_labels(&raw, &Some("10.1.2.3".to_string()));
    assert_eq!(
        refined.get("lazymc.server.address"),
        Some(&"plainhost".to_string())
    );
}

#[test]
fn refine_ignores_an_out_of_range_port() {
    let mut raw = Metadata::new();
    raw.insert("lazymc.server.address".to_string(), "mc:99999".to_string());
    let refined = refine_labels(&raw, &Some("10.1.2.3".to_string()));
    assert_eq!(
        refined.get("lazymc.server.address"),
        Some(&"mc:99999".to_string())
    );
}

#[test]
fn refine_unescapes_label_values() {
    let mut raw = Metadata::new();
    raw.insert(
        "lazymc.motd.sleeping".to_string(),
        "line one\\nline two".to_string(),
    );
    let refined = refine_labels(&raw, &None);
    assert_eq!(
        refined.get("lazymc.motd.sleeping"),
        Some(&"line one\nline two".to_string())
    );
}
