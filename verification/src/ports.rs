//! Named container ports and the merge of the canonical port set.

use vstd::prelude::*;
use crate::text::{opt_str_view, opt_str_is};

verus! {

/// Name of the port on which clients connect.
pub const CLIENT_PORT_NAME: &'static str = "client";

/// Name of the port on which followers connect to the leader.
pub const QUORUM_PORT_NAME: &'static str = "quorum";

/// Name of the port used for leader election.
pub const LEADER_ELECTION_PORT_NAME: &'static str = "leader-election";

/// Name of the port on which metrics are served.
pub const METRICS_PORT_NAME: &'static str = "metrics";

/// Name of the port of the admin server.
pub const ADMIN_SERVER_PORT_NAME: &'static str = "admin-server";

/// Port on which clients connect.
pub const CLIENT_PORT: i32 = 2181;

/// Port on which followers connect to the leader.
pub const QUORUM_PORT: i32 = 2888;

/// Port used for leader election.
pub const LEADER_ELECTION_PORT: i32 = 3888;

/// Port on which metrics are served.
pub const METRICS_PORT: i32 = 7000;

/// Port of the admin server.
pub const ADMIN_SERVER_PORT: i32 = 8080;

/// A port exposed by an ensemble member's container.
#[derive(Clone, Debug, PartialEq, Eq)]
pub struct ContainerPort {
    pub name: Option<String>,
    pub container_port: i32,
    pub host_ip: Option<String>,
    pub host_port: Option<i32>,
    pub protocol: Option<String>,
}

/// Mathematical value of a [`ContainerPort`].
pub struct ContainerPortView {
    pub name: Option<Seq<char>>,
    pub container_port: i32,
    pub host_ip: Option<Seq<char>>,
    pub host_port: Option<i32>,
    pub protocol: Option<Seq<char>>,
}

impl View for ContainerPort {
    type V = ContainerPortView;

    open spec fn view(&self) -> ContainerPortView {
        ContainerPortView {
            name: opt_str_view(self.name),
            container_port: self.container_port,
            host_ip: opt_str_view(self.host_ip),
            host_port: self.host_port,
            protocol: opt_str_view(self.protocol),
        }
    }
}

/// The values of a list of ports, in order.
pub open spec fn ports_view(ports: Seq<ContainerPort>) -> Seq<ContainerPortView> {
    ports.map_values(|p: ContainerPort| p@)
}

/// The port that the operator adds under `name` when the user gave none of that name.
pub open spec fn canonical_port(name: Seq<char>, number: i32) -> ContainerPortView {
    ContainerPortView {
        name: Some(name),
        container_port: number,
        host_ip: None,
        host_port: None,
        protocol: None,
    }
}

/// Whether some port of the list carries `name`.
pub open spec fn has_port_named(ports: Seq<ContainerPortView>, name: Seq<char>) -> bool {
    exists|i: int| 0 <= i < ports.len() && (#[trigger] ports[i]).name == Some(name)
}

/// `acc`, with the canonical port `name` appended unless `given` already has a port of that name.
pub open spec fn with_canonical(
    acc: Seq<ContainerPortView>,
    given: Seq<ContainerPortView>,
    name: Seq<char>,
    number: i32,
) -> Seq<ContainerPortView> {
    if has_port_named(given, name) {
        acc
    } else {
        acc.push(canonical_port(name, number))
    }
}

/// The given ports, kept as they are and in order, followed by each canonical port
/// whose name no given port carries: client, quorum, leader-election, metrics, admin-server.
pub open spec fn merged_ports(given: Seq<ContainerPortView>) -> Seq<ContainerPortView> {
    let one = with_canonical(given, given, CLIENT_PORT_NAME@, CLIENT_PORT);
    let two = with_canonical(one, given, QUORUM_PORT_NAME@, QUORUM_PORT);
    let three = with_canonical(two, given, LEADER_ELECTION_PORT_NAME@, LEADER_ELECTION_PORT);
    let four = with_canonical(three, given, METRICS_PORT_NAME@, METRICS_PORT);
    with_canonical(four, given, ADMIN_SERVER_PORT_NAME@, ADMIN_SERVER_PORT)
}

/// Whether every canonical port name occurs in the list.
pub open spec fn has_canonical_ports(ports: Seq<ContainerPortView>) -> bool {
    &&& has_port_named(ports, CLIENT_PORT_NAME@)
    &&& has_port_named(ports, QUORUM_PORT_NAME@)
    &&& has_port_named(ports, LEADER_ELECTION_PORT_NAME@)
    &&& has_port_named(ports, METRICS_PORT_NAME@)
    &&& has_port_named(ports, ADMIN_SERVER_PORT_NAME@)
}

/// Merging appends only: every given port stands in the merged list at its old place,
/// unchanged.
pub proof fn lemma_merge_keeps_given_ports(given: Seq<ContainerPortView>)
    ensures
        merged_ports(given).len() >= given.len(),
        forall|i: int| 0 <= i < given.len() ==> (#[trigger] merged_ports(given)[i]) == given[i],
{
}

/// Whether `longer` begins with `shorter`.
spec fn begins_with(longer: Seq<ContainerPortView>, shorter: Seq<ContainerPortView>) -> bool {
    &&& shorter.len() <= longer.len()
    &&& forall|i: int| 0 <= i < shorter.len() ==> (#[trigger] longer[i]) == shorter[i]
}

/// A port of `name` is found in every list that begins with the outcome of the step that
/// looks after `name`: the port was given, or the step has appended it.
proof fn lemma_step_provides(
    merged: Seq<ContainerPortView>,
    acc: Seq<ContainerPortView>,
    given: Seq<ContainerPortView>,
    name: Seq<char>,
    number: i32,
)
    requires
        begins_with(acc, given),
        begins_with(merged, with_canonical(acc, given, name, number)),
    ensures
        has_port_named(merged, name),
{
    let step = with_canonical(acc, given, name, number);
    if has_port_named(given, name) {
        let i = choose|i: int| 0 <= i < given.len() && (#[trigger] given[i]).name == Some(name);
        assert(merged[i] == step[i] && step[i] == given[i]);
    } else {
        let i = acc.len() as int;
        assert(merged[i] == step[i] && step[i] == canonical_port(name, number));
    }
}

/// After merging, every canonical port name occurs in the list.
pub proof fn lemma_merged_ports_are_canonical(given: Seq<ContainerPortView>)
    ensures
        has_canonical_ports(merged_ports(given)),
{
    let one = with_canonical(given, given, CLIENT_PORT_NAME@, CLIENT_PORT);
    let two = with_canonical(one, given, QUORUM_PORT_NAME@, QUORUM_PORT);
    let three = with_canonical(two, given, LEADER_ELECTION_PORT_NAME@, LEADER_ELECTION_PORT);
    let four = with_canonical(three, given, METRICS_PORT_NAME@, METRICS_PORT);
    let merged = merged_ports(given);
    lemma_step_provides(merged, given, given, CLIENT_PORT_NAME@, CLIENT_PORT);
    lemma_step_provides(merged, one, given, QUORUM_PORT_NAME@, QUORUM_PORT);
    lemma_step_provides(merged, two, given, LEADER_ELECTION_PORT_NAME@, LEADER_ELECTION_PORT);
    lemma_step_provides(merged, three, given, METRICS_PORT_NAME@, METRICS_PORT);
    lemma_step_provides(merged, four, given, ADMIN_SERVER_PORT_NAME@, ADMIN_SERVER_PORT);
}

/// A list that holds every canonical port name is what merging makes of it, and no other
/// list is.
pub proof fn lemma_canonical_ports_are_fixed(given: Seq<ContainerPortView>)
    ensures
        has_canonical_ports(given) <==> merged_ports(given) == given,
{
    if merged_ports(given) == given {
        lemma_merged_ports_are_canonical(given);
    }
}

/// Whether some port of the list carries `name`.
pub fn contains_port_named(ports: &Vec<ContainerPort>, name: &str) -> (found: bool)
    ensures
        found == has_port_named(ports_view(ports@), name@),
{
    let mut i: usize = 0;
    while i < ports.len()
        invariant
            i <= ports.len(),
            forall|j: int| 0 <= j < i ==> (#[trigger] ports_view(ports@)[j]).name != Some(name@),
        decreases ports.len() - i,
    {
        if opt_str_is(&ports[i].name, name) {
            assert(ports_view(ports@)[i as int].name == Some(name@));
            return true;
        }
        i += 1;
    }
    false
}

/// Appends the canonical port `name` to `ports`.
fn push_canonical(ports: &mut Vec<ContainerPort>, name: &str, number: i32)
    ensures
        ports_view(final(ports)@) == ports_view(old(ports)@).push(canonical_port(name@, number)),
{
    let port = ContainerPort {
        name: Some(name.to_owned()),
        container_port: number,
        host_ip: None,
        host_port: None,
        protocol: None,
    };
    ports.push(port);
    assert(ports_view(ports@) =~= ports_view(old(ports)@).push(canonical_port(name@, number)));
}

/// Adds to `ports` each canonical port whose name no port of the list carries yet, and
/// says whether any was added. Ports that are already in the list are never touched.
pub fn merge_canonical_ports(ports: &mut Vec<ContainerPort>) -> (changed: bool)
    ensures
        ports_view(final(ports)@) == merged_ports(ports_view(old(ports)@)),
        changed == !has_canonical_ports(ports_view(old(ports)@)),
        has_canonical_ports(ports_view(final(ports)@)),
        final(ports)@.len() >= old(ports)@.len(),
        forall|i: int|
            0 <= i < old(ports)@.len()
                ==> (#[trigger] ports_view(final(ports)@)[i]) == old(ports)@[i]@,
{
    proof {
        lemma_merged_ports_are_canonical(ports_view(ports@));
        lemma_merge_keeps_given_ports(ports_view(ports@));
    }
    let found_client = contains_port_named(ports, CLIENT_PORT_NAME);
    let found_quorum = contains_port_named(ports, QUORUM_PORT_NAME);
    let found_leader = contains_port_named(ports, LEADER_ELECTION_PORT_NAME);
    let found_metrics = contains_port_named(ports, METRICS_PORT_NAME);
    let found_admin = contains_port_named(ports, ADMIN_SERVER_PORT_NAME);
    let mut changed = false;
    if !found_client {
        push_canonical(ports, CLIENT_PORT_NAME, CLIENT_PORT);
        changed = true;
    }
    if !found_quorum {
        push_canonical(ports, QUORUM_PORT_NAME, QUORUM_PORT);
        changed = true;
    }
    if !found_leader {
        push_canonical(ports, LEADER_ELECTION_PORT_NAME, LEADER_ELECTION_PORT);
        changed = true;
    }
    if !found_metrics {
        push_canonical(ports, METRICS_PORT_NAME, METRICS_PORT);
        changed = true;
    }
    if !found_admin {
        push_canonical(ports, ADMIN_SERVER_PORT_NAME, ADMIN_SERVER_PORT);
        changed = true;
    }
    changed
}

} // verus!
