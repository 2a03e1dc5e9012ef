use zookeeper_operator::cluster::ZookeeperCluster;
use zookeeper_operator::cluster_spec::ZookeeperClusterSpec;
use zookeeper_operator::config::ZookeeperConfig;
use zookeeper_operator::image::{image_tag, ContainerImage};
use zookeeper_operator::pod::{Affinity, PodPolicy};
use zookeeper_operator::ports::{merge_canonical_ports, contains_port_named, ContainerPort};
use zookeeper_operator::probes::{Probe, Probes};
use zookeeper_operator::status::ZookeeperClusterStatus;
use zookeeper_operator::storage::{
    quantity_is_zero, EmptyDirVolumeSource, Ephemeral, Persistence, VolumeClaimSpec,
};
use zookeeper_operator::string_map::StringMap;

fn port(name: &str, number: i32) -> ContainerPort {
    ContainerPort {
        name: Some(name.to_string()),
        container_port: number,
        host_ip: None,
        host_port: None,
        protocol: None,
    }
}

fn port_numbers(ports: &[ContainerPort]) -> Vec<(String, i32)> {
    ports.iter().map(|p| (p.name.clone().unwrap_or_default(), p.container_port)).collect()
}

fn canonical() -> Vec<(String, i32)> {
    vec![
        ("client".to_string(), 2181),
        ("quorum".to_string(), 2888),
        ("leader-election".to_string(), 3888),
        ("metrics".to_string(), 7000),
        ("admin-server".to_string(), 8080),
    ]
}

#[test]
fn new_spec_asks_for_three_members() {
    let spec = ZookeeperClusterSpec::new();
    assert_eq!(spec.replicas, 3);
    assert!(spec.image.is_none());
    assert!(spec.storagetype.is_none());
    assert!(spec.persistence.is_none());
    assert!(spec.trigger_rolling_restart.is_none());
    assert!(spec.zkconfig.is_none());
    assert!(spec.probes.is_none());
    assert!(spec.ports.is_none());
    assert!(spec.pod.is_none());
    assert!(spec.ephemeral.is_none());
}

#[test]
fn zero_replicas_default_to_a_persistent_ensemble_of_three() {
    let mut spec = ZookeeperClusterSpec::new();
    spec.replicas = 0;
    let changed = spec.with_defaults("zk");
    assert!(changed);
    assert_eq!(spec.replicas, 3);
    assert_eq!(port_numbers(spec.ports.as_ref().unwrap()), canonical());
    assert_eq!(spec.storagetype.as_deref(), Some("persistence"));
    let persistence = spec.persistence.as_ref().unwrap();
    assert_eq!(persistence.volume_reclaim_policy.as_deref(), Some("Retain"));
    let claim = persistence.persistent_volume_claim_spec.as_ref().unwrap();
    assert_eq!(claim.access_modes, Some(vec!["ReadWriteOnce".to_string()]));
    assert_eq!(claim.storage_request.as_deref(), Some("20Gi"));
    assert!(spec.ephemeral.is_none());
}

#[test]
fn ephemeral_storage_gets_a_volume_source_and_no_persistence() {
    let mut spec = ZookeeperClusterSpec::new();
    spec.storagetype = Some("ephemeral".to_string());
    assert!(spec.with_defaults("zk"));
    assert_eq!(spec.storagetype.as_deref(), Some("ephemeral"));
    let ephemeral = spec.ephemeral.as_ref().unwrap();
    assert_eq!(
        ephemeral.emptydirvolumesource,
        Some(EmptyDirVolumeSource { medium: None, size_limit: None })
    );
    assert!(spec.persistence.is_none());
}

#[test]
fn ephemeral_storage_drops_stale_persistence() {
    let mut spec = ZookeeperClusterSpec::new();
    assert!(spec.with_defaults("zk"));
    assert!(spec.persistence.is_some());
    spec.storagetype = Some("ephemeral".to_string());
    assert!(spec.with_defaults("zk"));
    assert!(spec.persistence.is_none());
    assert!(spec.ephemeral.is_some());
    assert!(!spec.with_defaults("zk"));
}

#[test]
fn persistent_storage_drops_stale_ephemeral() {
    let mut spec = ZookeeperClusterSpec::new();
    spec.storagetype = Some("ephemeral".to_string());
    assert!(spec.with_defaults("zk"));
    spec.storagetype = Some("persistence".to_string());
    assert!(spec.with_defaults("zk"));
    assert!(spec.ephemeral.is_none());
    assert!(spec.persistence.is_some());
    assert!(!spec.with_defaults("zk"));
}

#[test]
fn unknown_storage_type_becomes_persistence() {
    let mut spec = ZookeeperClusterSpec::new();
    spec.storagetype = Some("tape".to_string());
    assert!(spec.with_defaults("zk"));
    assert_eq!(spec.storagetype.as_deref(), Some("persistence"));
    assert!(spec.persistence.is_some());
    let mut empty = ZookeeperClusterSpec::new();
    empty.storagetype = Some(String::new());
    assert!(empty.with_defaults("zk"));
    assert_eq!(empty.storagetype.as_deref(), Some("persistence"));
}

#[test]
fn defaulting_twice_changes_nothing_the_second_time() {
    let mut inputs = Vec::new();
    inputs.push(ZookeeperClusterSpec::new());
    let mut zero = ZookeeperClusterSpec::new();
    zero.replicas = 0;
    inputs.push(zero);
    let mut ephemeral = ZookeeperClusterSpec::new();
    ephemeral.storagetype = Some("ephemeral".to_string());
    ephemeral.persistence = Some(Persistence::new());
    inputs.push(ephemeral);
    let mut custom = ZookeeperClusterSpec::new();
    custom.replicas = 5;
    custom.ports = Some(vec![port("client", 9999), port("extra", 1234)]);
    custom.trigger_rolling_restart = Some(true);
    let mut config = ZookeeperConfig::new();
    config.tick_time = Some(3000);
    custom.zkconfig = Some(config);
    inputs.push(custom);
    for mut spec in inputs {
        assert!(spec.with_defaults("zk"));
        let once = spec.clone();
        assert!(!spec.with_defaults("zk"));
        assert_eq!(spec, once);
        assert!(!spec.with_defaults("another-name"));
        assert_eq!(spec, once);
    }
}

#[test]
fn defaulted_spec_has_every_part() {
    let mut spec = ZookeeperClusterSpec::new();
    spec.replicas = 0;
    spec.with_defaults("zk");
    let image = spec.image.as_ref().unwrap();
    assert_eq!(image.repository.as_deref(), Some("default_zk_container_repository"));
    assert_eq!(image.tag.as_deref(), Some("default_zk_container_version"));
    assert_eq!(image.pull_policy.as_deref(), Some("default_zk_container_policy"));
    assert_eq!(spec.trigger_rolling_restart, Some(false));
    assert!(spec.zkconfig.as_ref().unwrap().is_complete());
    let probes = spec.probes.unwrap();
    assert!(probes.readiness_probe.is_some() && probes.liveness_probe.is_some());
    let pod = spec.pod.as_ref().unwrap();
    assert!(pod.labels.is_some() && pod.affinity.is_some());
    assert!(pod.termination_grace_period_seconds.is_some());
    assert!(pod.service_account_name.is_some());
    assert!(spec.persistence.is_some() != spec.ephemeral.is_some());
}

#[test]
fn user_port_is_kept_and_the_other_four_are_added() {
    let mut spec = ZookeeperClusterSpec::new();
    let mut client = port("client", 9999);
    client.protocol = Some("UDP".to_string());
    spec.ports = Some(vec![client.clone()]);
    assert!(spec.with_defaults("zk"));
    let ports = spec.ports.as_ref().unwrap();
    assert_eq!(ports[0], client);
    assert_eq!(
        port_numbers(ports),
        vec![
            ("client".to_string(), 9999),
            ("quorum".to_string(), 2888),
            ("leader-election".to_string(), 3888),
            ("metrics".to_string(), 7000),
            ("admin-server".to_string(), 8080),
        ]
    );
}

#[test]
fn merge_appends_only_the_missing_ports_in_canonical_order() {
    let mut ports = vec![port("metrics", 1), port("other", 2), port("quorum", 3)];
    assert!(merge_canonical_ports(&mut ports));
    assert_eq!(
        port_numbers(&ports),
        vec![
            ("metrics".to_string(), 1),
            ("other".to_string(), 2),
            ("quorum".to_string(), 3),
            ("client".to_string(), 2181),
            ("leader-election".to_string(), 3888),
            ("admin-server".to_string(), 8080),
        ]
    );
    assert!(!merge_canonical_ports(&mut ports));
    assert_eq!(ports.len(), 6);
}

#[test]
fn merge_into_an_empty_list_gives_the_canonical_set() {
    let mut ports = Vec::new();
    assert!(merge_canonical_ports(&mut ports));
    assert_eq!(port_numbers(&ports), canonical());
}

#[test]
fn unnamed_port_is_no_canonical_port() {
    let unnamed = ContainerPort {
        name: None,
        container_port: 2181,
        host_ip: None,
        host_port: None,
        protocol: None,
    };
    let ports = vec![unnamed, port("client", 1)];
    assert!(contains_port_named(&ports, "client"));
    assert!(!contains_port_named(&ports, "quorum"));
    assert!(!contains_port_named(&ports, ""));
}

#[test]
fn config_defaults_are_the_documented_numbers() {
    let mut config = ZookeeperConfig::new();
    assert!(!config.is_complete());
    assert!(config.with_defaults());
    assert_eq!(config.init_limit, Some(10));
    assert_eq!(config.tick_time, Some(2000));
    assert_eq!(config.sync_limit, Some(2));
    assert_eq!(config.global_outstanding_limit, Some(1000));
    assert_eq!(config.pre_alloc_size, Some(65536));
    assert_eq!(config.snap_count, Some(10000));
    assert_eq!(config.commit_log_count, Some(500));
    assert_eq!(config.snap_size_limit_in_kb, Some(4194304));
    assert_eq!(config.max_cnxns, None);
    assert_eq!(config.max_client_cnxns, Some(60));
    assert_eq!(config.min_session_timeout, Some(4000));
    assert_eq!(config.max_session_timeout, Some(40000));
    assert_eq!(config.auto_purge_snap_retain_count, Some(3));
    assert_eq!(config.auto_purge_purge_interval, Some(1));
    assert_eq!(config.quorum_listen_on_all_ips, Some(false));
    assert!(config.additional_config.is_none());
    assert!(config.is_complete());
    assert!(!config.with_defaults());
}

#[test]
fn session_timeouts_follow_an_explicit_tick_time() {
    let mut config = ZookeeperConfig::new();
    config.tick_time = Some(3000);
    assert!(config.with_defaults());
    assert_eq!(config.tick_time, Some(3000));
    assert_eq!(config.min_session_timeout, Some(6000));
    assert_eq!(config.max_session_timeout, Some(60000));
}

#[test]
fn explicit_session_timeouts_are_kept() {
    let mut config = ZookeeperConfig::new();
    config.tick_time = Some(3000);
    config.min_session_timeout = Some(7);
    config.max_session_timeout = Some(8);
    config.with_defaults();
    assert_eq!(config.min_session_timeout, Some(7));
    assert_eq!(config.max_session_timeout, Some(8));
    config.tick_time = Some(1);
    assert!(!config.with_defaults());
    assert_eq!(config.min_session_timeout, Some(7));
}

#[test]
fn session_timeouts_stop_at_the_largest_number() {
    let mut config = ZookeeperConfig::new();
    config.tick_time = Some(200_000_000);
    config.with_defaults();
    assert_eq!(config.min_session_timeout, Some(400_000_000));
    assert_eq!(config.max_session_timeout, Some(i32::MAX));
    let mut negative = ZookeeperConfig::new();
    negative.tick_time = Some(i32::MIN);
    negative.with_defaults();
    assert_eq!(negative.min_session_timeout, Some(i32::MIN));
    assert_eq!(negative.max_session_timeout, Some(i32::MIN));
}

#[test]
fn image_defaults_fill_only_what_is_missing() {
    let mut image = ContainerImage::new();
    image.tag = Some("3.8".to_string());
    assert!(image.with_defaults());
    assert_eq!(image.repository.as_deref(), Some("default_zk_container_repository"));
    assert_eq!(image.tag.as_deref(), Some("3.8"));
    assert_eq!(image.pull_policy.as_deref(), Some("default_zk_container_policy"));
    assert!(!image.with_defaults());
}

#[test]
fn image_reference_joins_repository_and_tag() {
    let mut image = ContainerImage::new();
    assert_eq!(image.to_string(), "");
    image.repository = Some("pravega/zookeeper".to_string());
    assert_eq!(image.to_string(), "");
    image.tag = Some("0.2.15".to_string());
    assert_eq!(image.to_string(), "pravega/zookeeper:0.2.15");
    image.repository = None;
    assert_eq!(image.to_string(), "");
}

#[test]
fn missing_probes_get_all_five_numbers() {
    let mut probes = Probes::new();
    assert!(probes.with_defaults());
    let full = Probe {
        initial_delay_seconds: Some(10),
        period_seconds: Some(10),
        failure_threshold: Some(3),
        success_threshold: Some(1),
        timeout_seconds: Some(10),
    };
    assert_eq!(probes.readiness_probe, Some(full));
    assert_eq!(probes.liveness_probe, Some(full));
    assert!(!probes.with_defaults());
}

#[test]
fn partial_probe_is_left_untouched() {
    let mut partial = Probe::default();
    partial.period_seconds = Some(42);
    let mut probes = Probes { readiness_probe: Some(partial), liveness_probe: None };
    assert!(probes.with_defaults());
    assert_eq!(probes.readiness_probe, Some(partial));
    assert_eq!(probes.readiness_probe.unwrap().initial_delay_seconds, None);
    assert!(probes.liveness_probe.is_some());
}

#[test]
fn pod_policy_is_seeded_with_the_cluster_name() {
    let mut pod = PodPolicy::new();
    assert!(pod.with_defaults("zk-prod"));
    let labels = pod.labels.as_ref().unwrap();
    assert_eq!(labels.len(), 2);
    assert_eq!(labels.get("app").map(String::as_str), Some("zk-prod"));
    assert_eq!(labels.get("release").map(String::as_str), Some("zk-prod"));
    assert_eq!(pod.termination_grace_period_seconds, Some(30));
    assert_eq!(pod.service_account_name.as_deref(), Some("default"));
    let affinity = pod.affinity.as_ref().unwrap();
    assert_eq!(affinity.preferred_anti_affinity.len(), 1);
    let term = &affinity.preferred_anti_affinity[0];
    assert_eq!(term.weight, 20);
    assert_eq!(term.topology_key, "kubernetes.io/hostname");
    assert_eq!(term.match_expressions.len(), 1);
    assert_eq!(term.match_expressions[0].key, "app");
    assert_eq!(term.match_expressions[0].operator, "In");
    assert_eq!(term.match_expressions[0].values, vec!["zk-prod".to_string()]);
    assert!(pod.node_selector.is_none());
    assert!(pod.annotations.is_none());
    assert!(!pod.with_defaults("zk-prod"));
}

#[test]
fn pod_policy_keeps_what_the_user_stated() {
    let mut labels = StringMap::new();
    labels.insert("app".to_string(), "mine".to_string());
    labels.insert("team".to_string(), "storage".to_string());
    let mut pod = PodPolicy::new();
    pod.labels = Some(labels);
    pod.termination_grace_period_seconds = Some(0);
    pod.service_account_name = Some("zk".to_string());
    pod.affinity = Some(Affinity { preferred_anti_affinity: Vec::new() });
    assert!(pod.with_defaults("zk-prod"));
    let labels = pod.labels.as_ref().unwrap();
    assert_eq!(labels.get("app").map(String::as_str), Some("mine"));
    assert_eq!(labels.get("team").map(String::as_str), Some("storage"));
    assert_eq!(labels.get("release").map(String::as_str), Some("zk-prod"));
    assert_eq!(labels.len(), 3);
    assert_eq!(pod.termination_grace_period_seconds, Some(0));
    assert_eq!(pod.service_account_name.as_deref(), Some("zk"));
    assert_eq!(pod.affinity, Some(Affinity { preferred_anti_affinity: Vec::new() }));
}

#[test]
fn spread_over_hosts_selects_the_cluster() {
    let affinity = Affinity::spread_over_hosts("a");
    assert_eq!(affinity.preferred_anti_affinity[0].match_expressions[0].values, vec!["a".to_string()]);
}

#[test]
fn persistence_defaults_fill_the_claim() {
    let mut persistence = Persistence::new();
    assert!(persistence.with_defaults());
    assert_eq!(persistence.volume_reclaim_policy.as_deref(), Some("Retain"));
    let claim = persistence.persistent_volume_claim_spec.as_ref().unwrap();
    assert_eq!(claim.access_modes, Some(vec!["ReadWriteOnce".to_string()]));
    assert_eq!(claim.storage_request.as_deref(), Some("20Gi"));
    assert!(persistence.annotations.is_none());
    assert!(!persistence.with_defaults());
}

#[test]
fn persistence_keeps_a_stated_claim() {
    let mut persistence = Persistence::new();
    persistence.volume_reclaim_policy = Some("Delete".to_string());
    persistence.persistent_volume_claim_spec = Some(VolumeClaimSpec {
        access_modes: Some(vec!["ReadWriteMany".to_string()]),
        storage_request: Some("5Gi".to_string()),
    });
    assert!(!persistence.with_defaults());
    assert_eq!(persistence.volume_reclaim_policy.as_deref(), Some("Delete"));
    let claim = persistence.persistent_volume_claim_spec.as_ref().unwrap();
    assert_eq!(claim.access_modes, Some(vec!["ReadWriteMany".to_string()]));
    assert_eq!(claim.storage_request.as_deref(), Some("5Gi"));
}

#[test]
fn claim_for_nothing_gets_the_default_capacity() {
    let mut claim = VolumeClaimSpec::new();
    claim.storage_request = Some("0".to_string());
    claim.access_modes = Some(Vec::new());
    assert!(claim.with_defaults());
    assert_eq!(claim.storage_request.as_deref(), Some("20Gi"));
    assert_eq!(claim.access_modes, Some(vec!["ReadWriteOnce".to_string()]));
    let mut zero_gi = VolumeClaimSpec::new();
    zero_gi.storage_request = Some("0Gi".to_string());
    zero_gi.access_modes = Some(vec!["ReadOnlyMany".to_string()]);
    assert!(zero_gi.with_defaults());
    assert_eq!(zero_gi.storage_request.as_deref(), Some("20Gi"));
    assert_eq!(zero_gi.access_modes, Some(vec!["ReadOnlyMany".to_string()]));
}

#[test]
fn zero_quantities_are_told_from_others() {
    for zero in ["0", "0Gi", "", "0.0", "-0", "+0.00Mi", "000", "Gi", "abc", ".", "0e9", "0x1"] {
        assert!(quantity_is_zero(zero), "{zero:?} amounts to nothing");
    }
    for some in ["20Gi", "1", "0.5Gi", "100m", "-1", "+3e2", "10", "0.001", ".5", "1e0"] {
        assert!(!quantity_is_zero(some), "{some:?} amounts to something");
    }
}

#[test]
fn ephemeral_defaults_keep_a_stated_source() {
    let stated = EmptyDirVolumeSource { medium: Some("Memory".to_string()), size_limit: None };
    let mut ephemeral = Ephemeral { emptydirvolumesource: Some(stated.clone()) };
    assert!(!ephemeral.with_defaults());
    assert_eq!(ephemeral.emptydirvolumesource, Some(stated));
    let mut unset = Ephemeral::new();
    assert!(unset.with_defaults());
    assert!(unset.emptydirvolumesource.is_some());
}

#[test]
fn cluster_defaults_use_its_name_and_leave_the_status() {
    let mut cluster = ZookeeperCluster {
        name: "zk-a".to_string(),
        spec: ZookeeperClusterSpec::new(),
        status: ZookeeperClusterStatus::new(),
    };
    assert!(cluster.with_defaults());
    let labels = cluster.spec.pod.as_ref().unwrap().labels.as_ref().unwrap();
    assert_eq!(labels.get("app").map(String::as_str), Some("zk-a"));
    assert_eq!(cluster.name, "zk-a");
    assert_eq!(cluster.status, ZookeeperClusterStatus::new());
    assert!(!cluster.with_defaults());
}

#[test]
fn rolling_restart_is_asked_for_only_by_a_true_flag() {
    let mut cluster = ZookeeperCluster {
        name: "zk".to_string(),
        spec: ZookeeperClusterSpec::new(),
        status: ZookeeperClusterStatus::new(),
    };
    assert!(!cluster.get_trigger_rolling_restart());
    cluster.spec.trigger_rolling_restart = Some(false);
    assert!(!cluster.get_trigger_rolling_restart());
    cluster.spec.trigger_rolling_restart = Some(true);
    assert!(cluster.get_trigger_rolling_restart());
    cluster.with_defaults();
    assert!(cluster.get_trigger_rolling_restart());
}

#[test]
fn negative_replicas_are_left_alone() {
    let mut spec = ZookeeperClusterSpec::new();
    spec.replicas = -2;
    spec.with_defaults("zk");
    assert_eq!(spec.replicas, -2);
}

#[test]
fn tag_is_what_follows_the_last_colon() {
    assert_eq!(image_tag("pravega/zookeeper:0.2.15").as_deref(), Some("0.2.15"));
    assert_eq!(image_tag("zookeeper").as_deref(), None);
    assert_eq!(image_tag("registry:5000/zookeeper").as_deref(), None);
    assert_eq!(image_tag("registry:5000/zookeeper:3.8").as_deref(), Some("3.8"));
    assert_eq!(image_tag("a:b:c").as_deref(), Some("c"));
    assert_eq!(image_tag("zookeeper:").as_deref(), Some(""));
    assert_eq!(image_tag(":tag").as_deref(), Some("tag"));
    assert_eq!(image_tag("").as_deref(), None);
    assert_eq!(image_tag("répertoire:é").as_deref(), Some("é"));
}
