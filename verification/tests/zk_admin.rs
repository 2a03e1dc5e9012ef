use std::collections::BTreeMap;
use zookeeper_operator::zk_admin::{
    classify_code, cluster_node, cluster_size_payload, update_outcome, version_outcome, AdminAction,
    AdminError, CreateReply, EnsureNodePlan, ExistsReply, WriteReply,
};
use zookeeper_operator::zk_path::{path_segments, paths_of_levels};

/// A stand-in for the coordination service: nodes by path, with data and version.
struct Service {
    nodes: BTreeMap<String, (Vec<u8>, i32)>,
    creates: usize,
}

fn service() -> Service {
    Service { nodes: BTreeMap::new(), creates: 0 }
}

fn parent(path: &str) -> &str {
    match path.rfind('/') {
        Some(at) => &path[..at],
        None => "",
    }
}

fn create(service: &mut Service, path: &str, data: &[u8]) -> CreateReply {
    service.creates += 1;
    if service.nodes.contains_key(path) {
        return CreateReply::Refused(-110);
    }
    let above = parent(path);
    if !above.is_empty() && !service.nodes.contains_key(above) {
        return CreateReply::Refused(-101);
    }
    service.nodes.insert(path.to_string(), (data.to_vec(), 0));
    CreateReply::Created
}

fn set_data(service: &mut Service, path: &str, data: &[u8], expected: i32) -> WriteReply {
    match service.nodes.get_mut(path) {
        None => WriteReply::Refused(-101),
        Some(node) if node.1 != expected => WriteReply::Refused(-103),
        Some(node) => {
            node.0 = data.to_vec();
            node.1 += 1;
            WriteReply::Written(node.1)
        }
    }
}

fn stat(service: &Service, path: &str) -> ExistsReply {
    match service.nodes.get(path) {
        Some(node) => ExistsReply::Found(node.1),
        None => ExistsReply::Missing,
    }
}

fn ensure_node(service: &mut Service, path: &str, payload: &[u8]) -> Result<(), AdminError> {
    let mut plan = EnsureNodePlan::new(path, payload.to_vec())?;
    loop {
        match plan.action() {
            AdminAction::Create { path, data } => {
                let reply = create(service, &path, &data);
                plan.record(reply);
            }
            AdminAction::Done => return Ok(()),
            AdminAction::Failed(error) => return Err(error),
        }
    }
}

fn strings(items: &[&str]) -> Vec<String> {
    items.iter().map(|s| s.to_string()).collect()
}

#[test]
fn path_is_split_at_separators() {
    assert_eq!(path_segments("/a/b/c"), strings(&["a", "b", "c"]));
    assert_eq!(path_segments("a//b/"), strings(&["a", "b"]));
    assert_eq!(path_segments("/zookeeper-operator/zk"), strings(&["zookeeper-operator", "zk"]));
    assert_eq!(path_segments("plain"), strings(&["plain"]));
    assert_eq!(path_segments("/é/ß"), strings(&["é", "ß"]));
    assert!(path_segments("").is_empty());
    assert!(path_segments("/").is_empty());
    assert!(path_segments("///").is_empty());
}

#[test]
fn levels_lead_down_to_the_node() {
    assert_eq!(paths_of_levels(&strings(&["a", "b", "c"])), strings(&["/a", "/a/b", "/a/b/c"]));
    assert_eq!(paths_of_levels(&strings(&["only"])), strings(&["/only"]));
    assert!(paths_of_levels(&Vec::new()).is_empty());
}

#[test]
fn plan_creates_each_level_and_the_node_with_the_payload() {
    let mut plan = EnsureNodePlan::new("/a/b/c", b"data".to_vec()).unwrap();
    assert_eq!(plan.action(), AdminAction::Create { path: "/a".to_string(), data: Vec::new() });
    plan.record(CreateReply::Created);
    assert_eq!(plan.action(), AdminAction::Create { path: "/a/b".to_string(), data: Vec::new() });
    plan.record(CreateReply::Refused(-110));
    assert_eq!(
        plan.action(),
        AdminAction::Create { path: "/a/b/c".to_string(), data: b"data".to_vec() }
    );
    plan.record(CreateReply::Created);
    assert_eq!(plan.action(), AdminAction::Done);
    plan.record(CreateReply::Refused(-4));
    assert_eq!(plan.action(), AdminAction::Done);
}

#[test]
fn plan_for_a_top_level_node_writes_the_payload_at_once() {
    let plan = EnsureNodePlan::new("top", b"x".to_vec()).unwrap();
    assert_eq!(plan.action(), AdminAction::Create { path: "/top".to_string(), data: b"x".to_vec() });
}

#[test]
fn plan_without_segments_is_refused() {
    assert!(matches!(EnsureNodePlan::new("", Vec::new()), Err(AdminError::InvalidPath)));
    assert!(matches!(EnsureNodePlan::new("//", b"x".to_vec()), Err(AdminError::InvalidPath)));
}

#[test]
fn plan_fails_on_a_refusal_other_than_node_exists() {
    let mut plan = EnsureNodePlan::new("/a/b", Vec::new()).unwrap();
    plan.record(CreateReply::Refused(-4));
    assert_eq!(plan.action(), AdminAction::Failed(AdminError::Service(-4)));
    plan.record(CreateReply::Created);
    assert_eq!(plan.action(), AdminAction::Failed(AdminError::Service(-4)));
    let mut missing = EnsureNodePlan::new("/a/b", Vec::new()).unwrap();
    missing.record(CreateReply::Created);
    missing.record(CreateReply::Refused(-101));
    assert_eq!(missing.action(), AdminAction::Failed(AdminError::NotFound));
}

#[test]
fn terminal_node_that_exists_counts_as_success() {
    let mut plan = EnsureNodePlan::new("/a", b"new".to_vec()).unwrap();
    plan.record(CreateReply::Refused(-110));
    assert_eq!(plan.action(), AdminAction::Done);
}

#[test]
fn ensure_node_twice_leaves_the_same_tree() {
    let mut service = service();
    assert_eq!(ensure_node(&mut service, "/a/b/c", b"payload"), Ok(()));
    let once = service.nodes.clone();
    assert_eq!(once.len(), 3);
    assert_eq!(once["/a"], (Vec::new(), 0));
    assert_eq!(once["/a/b"], (Vec::new(), 0));
    assert_eq!(once["/a/b/c"], (b"payload".to_vec(), 0));
    let version = version_outcome(stat(&service, "/a/b/c"));
    assert_eq!(version, Ok(0));
    assert_eq!(ensure_node(&mut service, "/a/b/c", b"payload"), Ok(()));
    assert_eq!(service.nodes, once);
    assert_eq!(version_outcome(stat(&service, "/a/b/c")), version);
    assert_eq!(service.creates, 6);
}

#[test]
fn ensure_node_keeps_what_is_there() {
    let mut service = service();
    assert_eq!(create(&mut service, "/a", b"kept"), CreateReply::Created);
    assert_eq!(set_data(&mut service, "/a", b"kept too", 0), WriteReply::Written(1));
    assert_eq!(ensure_node(&mut service, "/a/b", b"p"), Ok(()));
    assert_eq!(service.nodes["/a"], (b"kept too".to_vec(), 1));
    assert_eq!(service.nodes["/a/b"], (b"p".to_vec(), 0));
    assert_eq!(ensure_node(&mut service, "/a/b", b"other payload"), Ok(()));
    assert_eq!(service.nodes["/a/b"], (b"p".to_vec(), 0));
}

#[test]
fn ensure_node_completes_a_partly_built_tree() {
    let mut service = service();
    let mut plan = EnsureNodePlan::new("/x/y/z", b"p".to_vec()).unwrap();
    if let AdminAction::Create { path, data } = plan.action() {
        plan.record(create(&mut service, &path, &data));
    }
    plan.record(CreateReply::Refused(-4));
    assert_eq!(plan.action(), AdminAction::Failed(AdminError::Service(-4)));
    assert_eq!(service.nodes.len(), 1);
    assert_eq!(ensure_node(&mut service, "/x/y/z", b"p"), Ok(()));
    assert_eq!(service.nodes.len(), 3);
    assert_eq!(service.nodes["/x/y/z"], (b"p".to_vec(), 0));
}

#[test]
fn update_succeeds_only_with_the_current_version() {
    let mut service = service();
    ensure_node(&mut service, "/n", b"v0").unwrap();
    let current = version_outcome(stat(&service, "/n")).unwrap();
    let stale = update_outcome(set_data(&mut service, "/n", b"bad", current + 1));
    assert_eq!(stale, Err(AdminError::VersionConflict));
    assert_eq!(service.nodes["/n"], (b"v0".to_vec(), 0));
    let fresh = update_outcome(set_data(&mut service, "/n", b"v1", current));
    assert_eq!(fresh, Ok(1));
    assert_eq!(service.nodes["/n"], (b"v1".to_vec(), 1));
    let again = update_outcome(set_data(&mut service, "/n", b"v2", current));
    assert_eq!(again, Err(AdminError::VersionConflict));
    assert_eq!(service.nodes["/n"], (b"v1".to_vec(), 1));
    let missing = update_outcome(set_data(&mut service, "/none", b"x", 0));
    assert_eq!(missing, Err(AdminError::NotFound));
}

#[test]
fn codes_are_classified() {
    assert_eq!(classify_code(-101), AdminError::NotFound);
    assert_eq!(classify_code(-110), AdminError::AlreadyExists);
    assert_eq!(classify_code(-103), AdminError::VersionConflict);
    assert_eq!(classify_code(-4), AdminError::Service(-4));
    assert_eq!(classify_code(0), AdminError::Service(0));
}

#[test]
fn version_of_a_missing_node_is_not_found() {
    assert_eq!(version_outcome(ExistsReply::Found(7)), Ok(7));
    assert_eq!(version_outcome(ExistsReply::Missing), Err(AdminError::NotFound));
    assert_eq!(version_outcome(ExistsReply::Refused(-7)), Err(AdminError::Service(-7)));
    assert_eq!(update_outcome(WriteReply::Written(3)), Ok(3));
    assert_eq!(update_outcome(WriteReply::Refused(-101)), Err(AdminError::NotFound));
}

#[test]
fn payload_records_the_ensemble_size() {
    assert_eq!(cluster_size_payload(3), b"CLUSTER_SIZE=3".to_vec());
    assert_eq!(cluster_size_payload(0), b"CLUSTER_SIZE=0".to_vec());
    assert_eq!(cluster_size_payload(10), b"CLUSTER_SIZE=10".to_vec());
    assert_eq!(cluster_size_payload(1205), b"CLUSTER_SIZE=1205".to_vec());
    assert_eq!(cluster_size_payload(-12), b"CLUSTER_SIZE=-12".to_vec());
    assert_eq!(cluster_size_payload(i32::MAX), b"CLUSTER_SIZE=2147483647".to_vec());
    assert_eq!(cluster_size_payload(i32::MIN), b"CLUSTER_SIZE=-2147483648".to_vec());
}

#[test]
fn cluster_node_lies_below_the_operator_root() {
    assert_eq!(cluster_node("zk"), "/zookeeper-operator/zk");
    assert_eq!(path_segments(&cluster_node("zk")), strings(&["zookeeper-operator", "zk"]));
}
