use zookeeper_operator::cluster::ZookeeperCluster;
use zookeeper_operator::cluster_spec::ZookeeperClusterSpec;
use zookeeper_operator::conditions::{ClusterConditionType, ConditionStatus};
use zookeeper_operator::members::MemberObservation;
use zookeeper_operator::reconcile::{Action, Event, Phase, Reconciliation};
use zookeeper_operator::status::ZookeeperClusterStatus;

fn member(name: &str, ready: bool) -> MemberObservation {
    MemberObservation {
        name: name.to_string(),
        ready,
        version: Some("default_zk_container_version".to_string()),
    }
}

fn defaulted_cluster() -> ZookeeperCluster {
    let mut cluster = ZookeeperCluster {
        name: "zk".to_string(),
        spec: ZookeeperClusterSpec::new(),
        status: ZookeeperClusterStatus::new(),
    };
    cluster.with_defaults();
    cluster
}

/// Runs one pass with collaborators that never fail, and lists the actions asked for.
fn run_pass(cluster: ZookeeperCluster, members: &[MemberObservation], now: &str) -> (ZookeeperCluster, Vec<Action>) {
    let mut pass = Reconciliation::begin(cluster);
    let mut actions = Vec::new();
    let mut event = Event::Start;
    loop {
        let action = pass.step(event, now);
        actions.push(action.clone());
        event = match action {
            Action::PatchSpec => Event::SpecPatched,
            Action::EnsureMetaNode { .. } => Event::MetaNodeEnsured,
            Action::ApplyChildren => Event::ChildrenApplied(members.to_vec()),
            Action::StartRestartSweep => Event::RestartSweepStarted,
            Action::PatchStatus => Event::StatusPatched,
            Action::Requeue { .. } => break,
        };
    }
    assert_eq!(pass.phase, Phase::End);
    (pass.cluster, actions)
}

#[test]
fn incomplete_spec_is_patched_and_the_pass_ends() {
    let cluster = ZookeeperCluster {
        name: "zk".to_string(),
        spec: ZookeeperClusterSpec::new(),
        status: ZookeeperClusterStatus::new(),
    };
    let (after, actions) = run_pass(cluster, &[], "t1");
    assert_eq!(actions, vec![Action::PatchSpec, Action::Requeue { after_seconds: 0 }]);
    assert_eq!(after, defaulted_cluster());
    assert!(!after.status.meta_root_created);
}

#[test]
fn ready_ensemble_yields_pods_ready() {
    let three = [member("zk-0", true), member("zk-1", true), member("zk-2", true)];
    let (after, actions) = run_pass(defaulted_cluster(), &three, "t1");
    assert_eq!(
        actions,
        vec![
            Action::EnsureMetaNode {
                path: "/zookeeper-operator/zk".to_string(),
                payload: b"CLUSTER_SIZE=3".to_vec(),
            },
            Action::ApplyChildren,
            Action::PatchStatus,
            Action::Requeue { after_seconds: 300 },
        ]
    );
    assert!(after.status.meta_root_created);
    assert_eq!(after.status.ready_replicas(), 3);
    assert_eq!(after.status.replicas(), 3);
    assert!(after.status.conditions.has_status(ClusterConditionType::PodsReady, ConditionStatus::True));
    assert_eq!(after.status.current_version.as_deref(), Some("default_zk_container_version"));

    let two = [member("zk-0", true), member("zk-1", true)];
    let (dropped, _) = run_pass(after, &two, "t2");
    assert_eq!(dropped.status.ready_replicas(), 2);
    assert!(dropped.status.conditions.has_status(ClusterConditionType::PodsReady, ConditionStatus::False));
    let condition = dropped.status.conditions.get(ClusterConditionType::PodsReady).unwrap();
    assert_eq!(condition.last_transition_time, "t2");
}

#[test]
fn unchanged_status_is_not_patched_again() {
    let three = [member("zk-0", true), member("zk-1", true), member("zk-2", true)];
    let (after, _) = run_pass(defaulted_cluster(), &three, "t1");
    let (again, actions) = run_pass(after.clone(), &three, "t2");
    assert_eq!(
        actions,
        vec![
            Action::EnsureMetaNode {
                path: "/zookeeper-operator/zk".to_string(),
                payload: b"CLUSTER_SIZE=3".to_vec(),
            },
            Action::ApplyChildren,
            Action::Requeue { after_seconds: 300 },
        ]
    );
    assert_eq!(again, after);
}

#[test]
fn rolling_restart_is_started_once_and_the_flag_cleared() {
    let mut cluster = defaulted_cluster();
    cluster.spec.trigger_rolling_restart = Some(true);
    let three = [member("zk-0", true), member("zk-1", true), member("zk-2", true)];
    let (after, actions) = run_pass(cluster, &three, "t1");
    let sweeps = actions.iter().filter(|a| **a == Action::StartRestartSweep).count();
    assert_eq!(sweeps, 1);
    assert_eq!(after.spec.trigger_rolling_restart, Some(false));
    assert!(!after.get_trigger_rolling_restart());
    assert_eq!(
        actions[2..].to_vec(),
        vec![
            Action::StartRestartSweep,
            Action::PatchSpec,
            Action::PatchStatus,
            Action::Requeue { after_seconds: 300 },
        ]
    );
    let (_, next) = run_pass(after, &three, "t2");
    assert!(!next.contains(&Action::StartRestartSweep));
}

#[test]
fn failed_sweep_keeps_the_flag() {
    let mut cluster = defaulted_cluster();
    cluster.spec.trigger_rolling_restart = Some(true);
    let mut pass = Reconciliation::begin(cluster);
    assert!(matches!(pass.step(Event::Start, "t"), Action::EnsureMetaNode { .. }));
    assert_eq!(pass.step(Event::MetaNodeEnsured, "t"), Action::ApplyChildren);
    assert_eq!(
        pass.step(Event::ChildrenApplied(vec![member("zk-0", true)]), "t"),
        Action::StartRestartSweep
    );
    assert_eq!(pass.phase, Phase::RestartSweep);
    assert_eq!(pass.step(Event::Failed, "t"), Action::Requeue { after_seconds: 60 });
    assert_eq!(pass.phase, Phase::End);
    assert_eq!(pass.cluster.spec.trigger_rolling_restart, Some(true));
}

#[test]
fn every_failure_ends_the_pass_with_the_backoff() {
    let mut at_meta = Reconciliation::begin(defaulted_cluster());
    at_meta.step(Event::Start, "t");
    assert_eq!(at_meta.step(Event::Failed, "t"), Action::Requeue { after_seconds: 60 });
    assert!(!at_meta.cluster.status.meta_root_created);

    let mut at_children = Reconciliation::begin(defaulted_cluster());
    at_children.step(Event::Start, "t");
    at_children.step(Event::MetaNodeEnsured, "t");
    assert_eq!(at_children.step(Event::Failed, "t"), Action::Requeue { after_seconds: 60 });

    let mut at_patch = Reconciliation::begin(ZookeeperCluster {
        name: "zk".to_string(),
        spec: ZookeeperClusterSpec::new(),
        status: ZookeeperClusterStatus::new(),
    });
    assert_eq!(at_patch.step(Event::Start, "t"), Action::PatchSpec);
    assert_eq!(at_patch.step(Event::Failed, "t"), Action::Requeue { after_seconds: 60 });

    let mut at_status = Reconciliation::begin(defaulted_cluster());
    at_status.step(Event::Start, "t");
    at_status.step(Event::MetaNodeEnsured, "t");
    assert_eq!(at_status.step(Event::ChildrenApplied(Vec::new()), "t"), Action::PatchStatus);
    assert_eq!(at_status.step(Event::Failed, "t"), Action::Requeue { after_seconds: 60 });
}

#[test]
fn event_out_of_turn_ends_the_pass() {
    let mut pass = Reconciliation::begin(defaulted_cluster());
    assert_eq!(pass.step(Event::StatusPatched, "t"), Action::Requeue { after_seconds: 60 });
    assert_eq!(pass.phase, Phase::End);
    assert_eq!(pass.step(Event::Start, "t"), Action::Requeue { after_seconds: 60 });
}

#[test]
fn upgrade_is_raised_when_members_run_another_tag() {
    let old = MemberObservation { name: "zk-0".to_string(), ready: true, version: Some("old".to_string()) };
    let (after, _) = run_pass(defaulted_cluster(), &[old], "t1");
    assert_eq!(after.status.current_version, None);
    assert_eq!(after.status.target_version.as_deref(), Some("default_zk_container_version"));
    assert!(after.status.conditions.has_status(ClusterConditionType::Upgrading, ConditionStatus::True));
    let (done, _) = run_pass(after, &[member("zk-0", true)], "t2");
    assert_eq!(done.status.current_version.as_deref(), Some("default_zk_container_version"));
    assert!(done.status.conditions.has_status(ClusterConditionType::Upgrading, ConditionStatus::False));
}
