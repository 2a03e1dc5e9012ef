use zookeeper_operator::conditions::{
    ClusterCondition, ClusterConditionType, ConditionList, ConditionStatus,
};
use zookeeper_operator::members::{pod_is_ready, MemberObservation, MembersStatus};
use zookeeper_operator::status::{all_members_run, ZookeeperClusterStatus};

fn member(name: &str, ready: bool, version: &str) -> MemberObservation {
    MemberObservation { name: name.to_string(), ready, version: Some(version.to_string()) }
}

fn strings(items: &[&str]) -> Vec<String> {
    items.iter().map(|s| s.to_string()).collect()
}

#[test]
fn members_are_sorted_by_readiness() {
    let observations =
        vec![member("zk-0", true, "1"), member("zk-1", false, "1"), member("zk-2", true, "1")];
    let members = MembersStatus::from_observations(&observations);
    assert_eq!(members.ready(), &strings(&["zk-0", "zk-2"]));
    assert_eq!(members.unready(), &strings(&["zk-1"]));
    assert_eq!(members.ready_replicas(), 2);
    assert_eq!(members.replicas(), 3);
}

#[test]
fn member_observed_twice_is_listed_once() {
    let observations = vec![
        member("zk-0", true, "1"),
        member("zk-0", false, "1"),
        member("zk-1", false, "1"),
        member("zk-1", true, "1"),
        member("zk-0", true, "1"),
    ];
    let members = MembersStatus::from_observations(&observations);
    assert_eq!(members.ready(), &strings(&["zk-0"]));
    assert_eq!(members.unready(), &strings(&["zk-1"]));
    assert_eq!(members.replicas(), 2);
    assert!(members.ready_replicas() <= members.replicas());
}

#[test]
fn no_observation_gives_no_member() {
    let members = MembersStatus::from_observations(&Vec::new());
    assert_eq!(members, MembersStatus::new());
    assert_eq!(members.replicas(), 0);
    assert_eq!(members.ready_replicas(), 0);
    assert!(members.same_as(&MembersStatus::new()));
}

#[test]
fn condition_is_opened_with_both_times() {
    let mut list = ConditionList::new();
    list.set(ClusterConditionType::PodsReady, ConditionStatus::False, "r", "m", "t1");
    assert_eq!(list.len(), 1);
    let condition = list.get(ClusterConditionType::PodsReady).unwrap();
    assert_eq!(condition.status, ConditionStatus::False);
    assert_eq!(condition.reason, "r");
    assert_eq!(condition.message, "m");
    assert_eq!(condition.last_update_time, "t1");
    assert_eq!(condition.last_transition_time, "t1");
    assert!(list.get(ClusterConditionType::Error).is_none());
}

#[test]
fn transition_time_moves_only_with_the_status() {
    let mut list = ConditionList::new();
    list.set(ClusterConditionType::PodsReady, ConditionStatus::False, "r", "m", "t1");
    list.set(ClusterConditionType::PodsReady, ConditionStatus::False, "r", "m", "t2");
    let same = list.get(ClusterConditionType::PodsReady).unwrap();
    assert_eq!(same.last_update_time, "t1");
    assert_eq!(same.last_transition_time, "t1");
    list.set(ClusterConditionType::PodsReady, ConditionStatus::False, "other", "m", "t3");
    let touched = list.get(ClusterConditionType::PodsReady).unwrap();
    assert_eq!(touched.reason, "other");
    assert_eq!(touched.last_update_time, "t3");
    assert_eq!(touched.last_transition_time, "t1");
    list.set(ClusterConditionType::PodsReady, ConditionStatus::True, "other", "m", "t4");
    let moved = list.get(ClusterConditionType::PodsReady).unwrap();
    assert_eq!(moved.status, ConditionStatus::True);
    assert_eq!(moved.last_update_time, "t4");
    assert_eq!(moved.last_transition_time, "t4");
    assert_eq!(list.len(), 1);
}

#[test]
fn each_type_has_one_condition_in_order_of_opening() {
    let mut list = ConditionList::new();
    list.set(ClusterConditionType::Upgrading, ConditionStatus::True, "", "", "t1");
    list.set(ClusterConditionType::PodsReady, ConditionStatus::Unknown, "", "", "t2");
    list.set(ClusterConditionType::Error, ConditionStatus::True, "bad", "spec", "t3");
    list.set(ClusterConditionType::Upgrading, ConditionStatus::False, "", "", "t4");
    list.set(ClusterConditionType::PodsReady, ConditionStatus::True, "", "", "t5");
    assert_eq!(list.len(), 3);
    assert_eq!(list.at(0).condition_type, ClusterConditionType::Upgrading);
    assert_eq!(list.at(1).condition_type, ClusterConditionType::PodsReady);
    assert_eq!(list.at(2).condition_type, ClusterConditionType::Error);
    assert_eq!(list.at(0).status, ConditionStatus::False);
    assert_eq!(list.at(2).last_update_time, "t3");
    assert!(list.has_status(ClusterConditionType::PodsReady, ConditionStatus::True));
    assert!(!list.has_status(ClusterConditionType::Upgrading, ConditionStatus::True));
    let copy = list.clone();
    assert!(copy.same_as(&list));
    assert_eq!(copy, list);
}

#[test]
fn status_is_written_as_in_a_status_document() {
    assert_eq!(ConditionStatus::True.as_str(), "True");
    assert_eq!(ConditionStatus::False.as_str(), "False");
    assert_eq!(ConditionStatus::Unknown.as_str(), "Unknown");
    assert_eq!(ConditionStatus::from_text("True"), ConditionStatus::True);
    assert_eq!(ConditionStatus::from_text("False"), ConditionStatus::False);
    assert_eq!(ConditionStatus::from_text("Unknown"), ConditionStatus::Unknown);
    assert_eq!(ConditionStatus::from_text("true"), ConditionStatus::Unknown);
    assert_eq!(ConditionStatus::from_text(""), ConditionStatus::Unknown);
    assert_eq!(ConditionStatus::of(true), ConditionStatus::True);
    assert_eq!(ConditionStatus::of(false), ConditionStatus::False);
}

#[test]
fn pods_are_ready_when_as_many_are_ready_as_desired() {
    let mut status = ZookeeperClusterStatus::new();
    let three =
        vec![member("zk-0", true, "1"), member("zk-1", true, "1"), member("zk-2", true, "1")];
    status.observe_members(&three, 3, "t1");
    assert_eq!(status.replicas(), 3);
    assert_eq!(status.ready_replicas(), 3);
    assert!(status.conditions.has_status(ClusterConditionType::PodsReady, ConditionStatus::True));
    let two = vec![member("zk-0", true, "1"), member("zk-1", true, "1")];
    status.observe_members(&two, 3, "t2");
    assert_eq!(status.ready_replicas(), 2);
    assert!(status.conditions.has_status(ClusterConditionType::PodsReady, ConditionStatus::False));
    let unready =
        vec![member("zk-0", true, "1"), member("zk-1", true, "1"), member("zk-2", false, "1")];
    status.observe_members(&unready, 3, "t3");
    assert_eq!(status.replicas(), 3);
    assert_eq!(status.ready_replicas(), 2);
    assert!(status.conditions.has_status(ClusterConditionType::PodsReady, ConditionStatus::False));
    assert_eq!(status.conditions.get(ClusterConditionType::PodsReady).unwrap().last_transition_time, "t2");
}

#[test]
fn upgrade_is_under_way_until_every_member_runs_the_tag() {
    let mut status = ZookeeperClusterStatus::new();
    let old = vec![member("zk-0", true, "1"), member("zk-1", true, "1")];
    status.track_versions("1", &old, "t1");
    assert_eq!(status.current_version.as_deref(), Some("1"));
    assert_eq!(status.target_version.as_deref(), Some("1"));
    assert!(status.conditions.has_status(ClusterConditionType::Upgrading, ConditionStatus::False));
    status.track_versions("2", &old, "t2");
    assert_eq!(status.current_version.as_deref(), Some("1"));
    assert_eq!(status.target_version.as_deref(), Some("2"));
    assert!(status.conditions.has_status(ClusterConditionType::Upgrading, ConditionStatus::True));
    let upgrading = status.conditions.get(ClusterConditionType::Upgrading).unwrap();
    assert_eq!(upgrading.reason, "Upgrading");
    assert_eq!(upgrading.message, "2");
    let mixed = vec![member("zk-0", true, "2"), member("zk-1", true, "1")];
    status.track_versions("2", &mixed, "t3");
    assert_eq!(status.current_version.as_deref(), Some("1"));
    let new = vec![member("zk-0", true, "2"), member("zk-1", false, "2")];
    status.track_versions("2", &new, "t4");
    assert_eq!(status.current_version.as_deref(), Some("2"));
    assert_eq!(status.target_version.as_deref(), Some("2"));
    assert!(status.conditions.has_status(ClusterConditionType::Upgrading, ConditionStatus::False));
    let before = status.clone();
    status.track_versions("2", &old, "t5");
    assert_eq!(status, before);
}

#[test]
fn member_without_version_does_not_run_the_tag() {
    let unknown = MemberObservation { name: "zk-0".to_string(), ready: true, version: None };
    assert!(!all_members_run(&vec![unknown], "1"));
    assert!(all_members_run(&Vec::new(), "1"));
    assert!(all_members_run(&vec![member("a", false, "1")], "1"));
}

#[test]
fn states_are_compared_part_by_part() {
    let mut a = ZookeeperClusterStatus::new();
    let b = ZookeeperClusterStatus::new();
    assert!(a.same_as(&b));
    a.meta_root_created = true;
    assert!(!a.same_as(&b));
    let mut c = a.clone();
    assert!(c.same_as(&a));
    c.internal_client_endpoint = Some("zk-client:2181".to_string());
    assert!(!c.same_as(&a));
    let mut d = a.clone();
    d.conditions.set(ClusterConditionType::Error, ConditionStatus::True, "r", "m", "t");
    assert!(!d.same_as(&a));
    let mut e = a.clone();
    e.observe_members(&vec![member("zk-0", true, "1")], 1, "t");
    assert!(!e.same_as(&a));
}

#[test]
fn pod_is_ready_when_every_condition_holds() {
    let yes = |items: &[&str]| pod_is_ready(&strings(items));
    assert!(yes(&["True", "True"]));
    assert!(yes(&[]));
    assert!(!yes(&["True", "False"]));
    assert!(!yes(&["Unknown"]));
    assert!(!yes(&["true"]));
}

#[test]
fn restored_condition_keeps_its_times() {
    let stored = ClusterCondition {
        condition_type: ClusterConditionType::Upgrading,
        status: ConditionStatus::True,
        reason: "r".to_string(),
        message: "m".to_string(),
        last_update_time: "t2".to_string(),
        last_transition_time: "t1".to_string(),
    };
    let mut list = ConditionList::new();
    assert!(list.restore(stored.clone()));
    assert_eq!(list.at(0), &stored);
    let mut second = stored.clone();
    second.status = ConditionStatus::False;
    assert!(!list.restore(second));
    assert_eq!(list.len(), 1);
    assert_eq!(list.at(0), &stored);
    assert!(stored.same_as(list.at(0)));
}
