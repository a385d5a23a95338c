use lazymc_docker_proxy::adapter::Adapter;
use lazymc_docker_proxy::config::Config;
use lazymc_docker_proxy::config::ConfigError;
use lazymc_docker_proxy::config::ProxyVersions;
use lazymc_docker_proxy::metadata::Metadata;
use lazymc_docker_proxy::version::is_legacy;

fn labels_of(pairs: &[(&str, &str)]) -> Metadata {
    let mut m = Metadata::new();
    for (k, v) in pairs {
        m.insert(k.to_string(), v.to_string());
    }
    m
}

fn versions_both() -> ProxyVersions {
    ProxyVersions {
        version: Some("0.2.11".to_string()),
        legacy_version: Some("0.2.10".to_string()),
    }
}

struct NoopAdapter;

impl Adapter for NoopAdapter {
    fn stop(_group: &String) {}

    fn start(_group: &String) {}

    fn stop_all_containers() {}

    fn get_container_labels() -> Vec<Metadata> {
        Vec::new()
    }
}

#[test]
fn missing_address_is_fatal() {
    let labels = labels_of(&[("lazymc.group", "alice")]);
    let r = Config::from_container_labels(&labels, None, &versions_both());
    assert!(matches!(r, Err(ConfigError::MissingServerAddress)));
}

#[test]
fn missing_group_is_fatal() {
    let labels = labels_of(&[("lazymc.server.address", "mc:25565")]);
    let r = Config::from_container_labels(&labels, None, &versions_both());
    assert!(matches!(r, Err(ConfigError::MissingGroup)));
}

#[test]
fn empty_metadata_is_fatal() {
    let labels = labels_of(&[]);
    let r = Config::from_container_labels(&labels, None, &versions_both());
    assert!(matches!(r, Err(ConfigError::MissingServerAddress)));
}

#[test]
fn resolved_address_is_used_directly() {
    let labels = labels_of(&[
        ("lazymc.server.address", "mc.example.org:25565"),
        ("lazymc.group", "alice"),
    ]);
    let c = Config::from_container_labels(
        &labels,
        Some("10.0.0.5:25565".to_string()),
        &versions_both(),
    )
    .unwrap();
    assert_eq!(c.server.address, Some("10.0.0.5:25565".to_string()));
    assert_eq!(c.server.wake_on_start, Some(false));
    assert!(c.resolved_ip);
}

#[test]
fn unresolved_address_keeps_literal_and_forces_wake_on_start() {
    let labels = labels_of(&[
        ("lazymc.server.address", "mc.example.org:25565"),
        ("lazymc.group", "alice"),
    ]);
    let c = Config::from_container_labels(&labels, None, &versions_both()).unwrap();
    assert_eq!(c.server.address, Some("mc.example.org:25565".to_string()));
    assert_eq!(c.server.wake_on_start, Some(true));
    assert!(!c.resolved_ip);
}

#[test]
fn derives_fixed_policy_fields() {
    let labels = labels_of(&[
        ("lazymc.server.address", "mc:25565"),
        ("lazymc.group", "alice"),
    ]);
    let c = Config::from_container_labels(&labels, None, &versions_both()).unwrap();
    assert_eq!(c.server.freeze_process, Some(false));
    assert_eq!(c.server.wake_on_crash, Some(true));
    assert_eq!(c.advanced.rewrite_server_properties, Some(false));
    assert_eq!(c.server.directory, Some("/server".to_string()));
    assert_eq!(
        c.server.command,
        Some("lazymc-docker-proxy --command --adapter systemd --group alice".to_string())
    );
}

#[test]
fn derives_group_and_artifact_name() {
    let labels = labels_of(&[
        ("lazymc.server.address", "mc:25565"),
        ("lazymc.group", "alice"),
    ]);
    let c = Config::from_container_labels(&labels, None, &versions_both()).unwrap();
    assert_eq!(c.group().as_str(), "alice");
    assert_eq!(c.config_file, "lazymc.alice.toml".to_string());
}

#[test]
fn bool_labels_parse_by_literal_true_token() {
    let labels = labels_of(&[
        ("lazymc.server.address", "mc:25565"),
        ("lazymc.group", "alice"),
        ("lazymc.server.forge", "true"),
        ("lazymc.server.wake_whitelist", "false"),
        ("lazymc.server.probe_on_start", "TRUE"),
    ]);
    let c = Config::from_container_labels(&labels, None, &versions_both()).unwrap();
    assert_eq!(c.server.forge, Some(true));
    assert_eq!(c.server.wake_whitelist, Some(false));
    assert_eq!(c.server.probe_on_start, Some(false));
    assert_eq!(c.server.block_banned_ips, None);
}

#[test]
fn numeric_labels_parse_or_stay_unset() {
    let labels = labels_of(&[
        ("lazymc.server.address", "mc:25565"),
        ("lazymc.group", "alice"),
        ("lazymc.time.sleep_after", "60"),
        ("lazymc.time.minimum_online_time", "soon"),
        ("lazymc.server.start_timeout", "-5"),
    ]);
    let c = Config::from_container_labels(&labels, None, &versions_both()).unwrap();
    assert_eq!(c.time.sleep_after, Some(60));
    assert_eq!(c.time.minimum_online_time, None);
    assert_eq!(c.server.start_timeout, Some(-5));
    assert_eq!(c.server.stop_timeout, None);
}

#[test]
fn join_methods_split_on_comma() {
    let labels = labels_of(&[
        ("lazymc.server.address", "mc:25565"),
        ("lazymc.group", "alice"),
        ("lazymc.join.methods", "kick,hold"),
    ]);
    let c = Config::from_container_labels(&labels, None, &versions_both()).unwrap();
    assert_eq!(
        c.join.methods,
        Some(vec!["kick".to_string(), "hold".to_string()])
    );
}

#[test]
fn join_methods_absent_stays_unset() {
    let labels = labels_of(&[
        ("lazymc.server.address", "mc:25565"),
        ("lazymc.group", "alice"),
    ]);
    let c = Config::from_container_labels(&labels, None, &versions_both()).unwrap();
    assert_eq!(c.join.methods, None);
}

#[test]
fn public_address_uses_declared_or_default_port() {
    let base = [
        ("lazymc.server.address", "mc:25565"),
        ("lazymc.group", "alice"),
    ];
    let c = Config::from_container_labels(&labels_of(&base), None, &versions_both()).unwrap();
    assert_eq!(c.public.address, Some("0.0.0.0:25565".to_string()));

    let mut with_port = base.to_vec();
    with_port.push(("lazymc.port", "25570"));
    let c2 = Config::from_container_labels(&labels_of(&with_port), None, &versions_both()).unwrap();
    assert_eq!(c2.public.address, Some("0.0.0.0:25570".to_string()));
}

#[test]
fn optional_string_sections_carry_over() {
    let labels = labels_of(&[
        ("lazymc.server.address", "mc:25565"),
        ("lazymc.group", "alice"),
        ("lazymc.motd.sleeping", "zzz"),
        ("lazymc.join.kick.starting", "starting up"),
        ("lazymc.join.forward.address", "10.0.0.9:25565"),
        ("lazymc.join.lobby.sound", "bell"),
        ("lazymc.lockout.message", "closed"),
        ("lazymc.lockout.enabled", "true"),
    ]);
    let c = Config::from_container_labels(&labels, None, &versions_both()).unwrap();
    assert_eq!(c.motd.sleeping, Some("zzz".to_string()));
    assert_eq!(c.motd.starting, None);
    assert_eq!(c.join.kick.starting, Some("starting up".to_string()));
    assert_eq!(c.join.forward.address, Some("10.0.0.9:25565".to_string()));
    assert_eq!(c.join.lobby.ready_sound, Some("bell".to_string()));
    assert_eq!(c.lockout.enabled, Some(true));
    assert_eq!(c.lockout.message, Some("closed".to_string()));
}

#[test]
fn legacy_version_selects_legacy_build() {
    let labels = labels_of(&[
        ("lazymc.server.address", "mc:25565"),
        ("lazymc.group", "alice"),
        ("lazymc.public.version", "1.8.9"),
    ]);
    let c = Config::from_container_labels(&labels, None, &versions_both()).unwrap();
    assert_eq!(c.start_command, "lazymc-legacy".to_string());
    assert_eq!(c.config.version, Some("0.2.10".to_string()));
    assert_eq!(c.public.version, Some("1.8.9".to_string()));
}

#[test]
fn threshold_version_selects_standard_build() {
    let labels = labels_of(&[
        ("lazymc.server.address", "mc:25565"),
        ("lazymc.group", "alice"),
        ("lazymc.public.version", "1.20.3"),
    ]);
    let c = Config::from_container_labels(&labels, None, &versions_both()).unwrap();
    assert_eq!(c.start_command, "lazymc".to_string());
    assert_eq!(c.config.version, Some("0.2.11".to_string()));
}

#[test]
fn newer_version_selects_standard_build() {
    let labels = labels_of(&[
        ("lazymc.server.address", "mc:25565"),
        ("lazymc.group", "alice"),
        ("lazymc.public.version", "1.21.4"),
    ]);
    let c = Config::from_container_labels(&labels, None, &versions_both()).unwrap();
    assert_eq!(c.start_command, "lazymc".to_string());
}

#[test]
fn absent_version_selects_standard_build() {
    let labels = labels_of(&[
        ("lazymc.server.address", "mc:25565"),
        ("lazymc.group", "alice"),
    ]);
    let c = Config::from_container_labels(&labels, None, &versions_both()).unwrap();
    assert_eq!(c.start_command, "lazymc".to_string());
    assert_eq!(c.public.version, None);
}

#[test]
fn is_legacy_orders_versions_semantically() {
    assert!(is_legacy(&Some("1.8.9".to_string())));
    assert!(is_legacy(&Some("1.20.2".to_string())));
    assert!(!is_legacy(&Some("1.20.3".to_string())));
    assert!(!is_legacy(&Some("1.20.4".to_string())));
    assert!(!is_legacy(&Some("1.21".to_string())));
    assert!(!is_legacy(&None));
}

#[test]
fn missing_standard_version_env_is_fatal() {
    let labels = labels_of(&[
        ("lazymc.server.address", "mc:25565"),
        ("lazymc.group", "alice"),
    ]);
    let versions = ProxyVersions {
        version: None,
        legacy_version: Some("0.2.10".to_string()),
    };
    let r = Config::from_container_labels(&labels, None, &versions);
    assert!(matches!(r, Err(ConfigError::MissingVersion)));
}

#[test]
fn missing_legacy_version_env_is_fatal() {
    let labels = labels_of(&[
        ("lazymc.server.address", "mc:25565"),
        ("lazymc.group", "alice"),
        ("lazymc.public.version", "1.8.9"),
    ]);
    let versions = ProxyVersions {
        version: Some("0.2.11".to_string()),
        legacy_version: None,
    };
    let r = Config::from_container_labels(&labels, None, &versions);
    assert!(matches!(r, Err(ConfigError::MissingLegacyVersion)));
}

#[test]
fn start_command_names_binary_and_artifact() {
    let labels = labels_of(&[
        ("lazymc.server.address", "mc:25565"),
        ("lazymc.group", "alice"),
    ]);
    let c = Config::from_container_labels(
        &labels,
        Some("10.0.0.5:25565".to_string()),
        &versions_both(),
    )
    .unwrap();
    let args = c.start_command::<NoopAdapter>();
    assert_eq!(
        args,
        vec![
            "lazymc".to_string(),
            "start".to_string(),
            "--config".to_string(),
            "lazymc.alice.toml".to_string(),
        ]
    );
}

#[test]
fn two_groups_get_independent_artifacts() {
    let alice = labels_of(&[
        ("lazymc.server.address", "alice-mc:25565"),
        ("lazymc.group", "alice"),
    ]);
    let bob = labels_of(&[
        ("lazymc.server.address", "bob-mc:25565"),
        ("lazymc.group", "bob"),
    ]);
    let ca = Config::from_container_labels(&alice, None, &versions_both()).unwrap();
    let cb = Config::from_container_labels(&bob, None, &versions_both()).unwrap();
    assert_eq!(ca.config_file, "lazymc.alice.toml".to_string());
    assert_eq!(cb.config_file, "lazymc.bob.toml".to_string());
    assert_ne!(ca.config_file, cb.config_file);
    assert_ne!(ca.group(), cb.group());
}

#[test]
fn environment_to_label_maps_known_names_and_drops_others() {
    let mut env = Metadata::new();
    env.insert("LAZYMC_SERVER_ADDRESS".to_string(), "mc:25565".to_string());
    env.insert("LAZYMC_GROUP".to_string(), "alice".to_string());
    env.insert("LAZYMC_TIME_SLEEP_AFTER".to_string(), "60".to_string());
    env.insert("PATH".to_string(), "/usr/bin".to_string());
    env.insert("LAZYMC_LOCKOUT_ENABLED".to_string(), "true".to_string());
    let labels = Config::environment_to_label(&env);
    assert_eq!(
        labels.get("lazymc.server.address"),
        Some(&"mc:25565".to_string())
    );
    assert_eq!(labels.get("lazymc.group"), Some(&"alice".to_string()));
    assert_eq!(labels.get("lazymc.time.sleep_after"), Some(&"60".to_string()));
    assert_eq!(labels.get("lazymc.lockout.enabled"), Some(&"true".to_string()));
    assert_eq!(labels.get("PATH"), None);
    assert_eq!(labels.len(), 4);
}

#[test]
fn environment_fallback_derives_one_config() {
    let mut env = Metadata::new();
    env.insert("LAZYMC_SERVER_ADDRESS".to_string(), "mc:25565".to_string());
    env.insert("LAZYMC_GROUP".to_string(), "solo".to_string());
    let sets = lazymc_docker_proxy::entrypoint::effective_label_sets(Vec::new(), &env);
    assert_eq!(sets.len(), 1);
    let c = Config::from_container_labels(&sets[0], None, &versions_both()).unwrap();
    assert_eq!(c.group().as_str(), "solo");
    assert_eq!(c.config_file, "lazymc.solo.toml".to_string());
}
