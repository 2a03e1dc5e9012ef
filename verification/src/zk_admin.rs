//! Decisions of the administrative client of the coordination service.
//!
//! The client's network calls are made by the caller. This module decides which call
//! comes next and what its reply means.

use vstd::prelude::*;
use vstd::slice::slice_to_vec;
use vstd::string::StringSliceAdditionalSpecFns;
use crate::text::strs_view;
use crate::zk_path::{is_segment, level_paths, path_segments, paths_of_levels, segments};

verus! {

/// Code with which the service refuses to create a node that exists.
pub const CODE_NODE_EXISTS: i32 = -110;

/// Code with which the service answers for a node that does not exist.
pub const CODE_NO_NODE: i32 = -101;

/// Code with which the service refuses a write whose expected version is not the node's.
pub const CODE_BAD_VERSION: i32 = -103;

/// Seconds after which an attempt to open a session is given up.
pub const SESSION_TIMEOUT_SECONDS: u64 = 5;

/// Why an administrative operation failed.
#[derive(Clone, Copy, Debug, PartialEq, Eq, Structural)]
pub enum AdminError {
    /// The path leads to no node: it has no segment.
    InvalidPath,
    /// The node, or the node above it, does not exist.
    NotFound,
    /// The node exists already.
    AlreadyExists,
    /// The expected version is not the node's version: read the node again and retry.
    VersionConflict,
    /// The service failed in another way, with this code.
    Service(i32),
}

/// What a code of the service means to the client.
pub open spec fn error_of_code(code: i32) -> AdminError {
    if code == CODE_NO_NODE {
        AdminError::NotFound
    } else if code == CODE_NODE_EXISTS {
        AdminError::AlreadyExists
    } else if code == CODE_BAD_VERSION {
        AdminError::VersionConflict
    } else {
        AdminError::Service(code)
    }
}

/// What a code of the service means to the client.
pub fn classify_code(code: i32) -> (error: AdminError)
    ensures
        error == error_of_code(code),
{
    if code == CODE_NO_NODE {
        AdminError::NotFound
    } else if code == CODE_NODE_EXISTS {
        AdminError::AlreadyExists
    } else if code == CODE_BAD_VERSION {
        AdminError::VersionConflict
    } else {
        AdminError::Service(code)
    }
}

/// The service's reply to a request to create a node.
#[derive(Clone, Copy, Debug, PartialEq, Eq, Structural)]
pub enum CreateReply {
    /// The node was created.
    Created,
    /// The service refused, with this code.
    Refused(i32),
}

/// The service's reply to a request to replace a node's data.
#[derive(Clone, Copy, Debug, PartialEq, Eq, Structural)]
pub enum WriteReply {
    /// The data was replaced; the node now has this version.
    Written(i32),
    /// The service refused, with this code.
    Refused(i32),
}

/// The service's reply to the question whether a node exists.
#[derive(Clone, Copy, Debug, PartialEq, Eq, Structural)]
pub enum ExistsReply {
    /// The node exists and has this version.
    Found(i32),
    /// The node does not exist.
    Missing,
    /// The service refused, with this code.
    Refused(i32),
}

/// What an update returns for each reply of the service: the node's new version, or the
/// reason of the refusal.
pub open spec fn update_outcome_of(reply: WriteReply) -> Result<i32, AdminError> {
    match reply {
        WriteReply::Written(version) => Ok(version),
        WriteReply::Refused(code) => Err(error_of_code(code)),
    }
}

/// What an update returns for the reply that the service gave: the node's new version,
/// or a version conflict where the expected version was not the node's.
pub fn update_outcome(reply: WriteReply) -> (outcome: Result<i32, AdminError>)
    ensures
        outcome == update_outcome_of(reply),
{
    match reply {
        WriteReply::Written(version) => Ok(version),
        WriteReply::Refused(code) => Err(classify_code(code)),
    }
}

/// What the question for a node's version returns for each reply of the service.
pub open spec fn version_outcome_of(reply: ExistsReply) -> Result<i32, AdminError> {
    match reply {
        ExistsReply::Found(version) => Ok(version),
        ExistsReply::Missing => Err(AdminError::NotFound),
        ExistsReply::Refused(code) => Err(error_of_code(code)),
    }
}

/// What the question for a node's version returns for the reply that the service gave.
pub fn version_outcome(reply: ExistsReply) -> (outcome: Result<i32, AdminError>)
    ensures
        outcome == version_outcome_of(reply),
{
    match reply {
        ExistsReply::Found(version) => Ok(version),
        ExistsReply::Missing => Err(AdminError::NotFound),
        ExistsReply::Refused(code) => Err(classify_code(code)),
    }
}

/// What the client does next while it makes sure of a node.
#[derive(Clone, Debug, PartialEq, Eq)]
pub enum AdminAction {
    /// Ask the service to create the persistent node `path` with `data`.
    Create { path: String, data: Vec<u8> },
    /// Nothing: every level of the path exists.
    Done,
    /// Nothing: the service refused, and the operation has failed.
    Failed(AdminError),
}

/// Mathematical value of an [`AdminAction`].
pub enum AdminActionView {
    Create { path: Seq<char>, data: Seq<u8> },
    Done,
    Failed(AdminError),
}

impl View for AdminAction {
    type V = AdminActionView;

    open spec fn view(&self) -> AdminActionView {
        match self {
            AdminAction::Create { path, data } => AdminActionView::Create {
                path: path@,
                data: data@,
            },
            AdminAction::Done => AdminActionView::Done,
            AdminAction::Failed(error) => AdminActionView::Failed(*error),
        }
    }
}

/// Progress of making sure that a node exists, level by level from the top.
///
/// The levels above the node are created empty, the node itself with the payload. A level
/// that exists already is left as it is.
pub struct EnsureNodePlan {
    levels: Vec<String>,
    payload: Vec<u8>,
    next: usize,
    failure: Option<AdminError>,
    segments: Ghost<Seq<Seq<char>>>,
}

/// Mathematical value of an [`EnsureNodePlan`].
pub struct EnsureNodePlanView {
    /// The segments of the node's path.
    pub segments: Seq<Seq<char>>,
    /// The data that the node is created with.
    pub payload: Seq<u8>,
    /// Number of levels that are known to exist.
    pub next: nat,
    /// The refusal that ended the operation, if one did.
    pub failure: Option<AdminError>,
}

impl EnsureNodePlanView {
    /// The plan for the node through `segments`, before any call.
    pub open spec fn fresh(segments: Seq<Seq<char>>, payload: Seq<u8>) -> EnsureNodePlanView {
        EnsureNodePlanView { segments, payload, next: 0, failure: None }
    }

    /// Whether the plan leads to a node: its path has a segment, each segment is one, and
    /// no more levels are done than there are.
    pub open spec fn well_formed(self) -> bool {
        &&& self.segments.len() > 0
        &&& forall|i: int| 0 <= i < self.segments.len() ==> is_segment(#[trigger] self.segments[i])
        &&& self.next <= self.segments.len()
    }

    /// The paths of the levels, from the top level down to the node.
    pub open spec fn levels(self) -> Seq<Seq<char>> {
        level_paths(self.segments)
    }

    /// The path of the node that the plan makes sure of.
    pub open spec fn target(self) -> Seq<char> {
        self.levels().last()
    }

    /// The data that the level `level` is created with: the payload for the node itself,
    /// nothing for the levels above it.
    pub open spec fn data_at(self, level: int) -> Seq<u8> {
        if level == self.segments.len() - 1 {
            self.payload
        } else {
            Seq::empty()
        }
    }

    /// What the client does next: it fails once the service refused, is done once every
    /// level exists, and else asks for the next level.
    pub open spec fn action(self) -> AdminActionView {
        match self.failure {
            Some(error) => AdminActionView::Failed(error),
            None => if self.next >= self.segments.len() {
                AdminActionView::Done
            } else {
                AdminActionView::Create {
                    path: self.levels()[self.next as int],
                    data: self.data_at(self.next as int),
                }
            },
        }
    }

    /// Whether a call is still to be made.
    pub open spec fn is_pending(self) -> bool {
        self.failure is None && self.next < self.segments.len()
    }

    /// The plan after the service's reply to the call that [`Self::action`] asked for.
    ///
    /// A level that was created, or that existed already, is done. Any other refusal ends
    /// the operation. A reply to a call that was not asked for changes nothing.
    pub open spec fn after(self, reply: CreateReply) -> EnsureNodePlanView {
        if !self.is_pending() {
            self
        } else {
            match reply {
                CreateReply::Created => EnsureNodePlanView { next: self.next + 1, ..self },
                CreateReply::Refused(code) => if code == CODE_NODE_EXISTS {
                    EnsureNodePlanView { next: self.next + 1, ..self }
                } else {
                    EnsureNodePlanView { failure: Some(error_of_code(code)), ..self }
                },
            }
        }
    }
}

impl View for EnsureNodePlan {
    type V = EnsureNodePlanView;

    closed spec fn view(&self) -> EnsureNodePlanView {
        EnsureNodePlanView {
            segments: self.segments@,
            payload: self.payload@,
            next: self.next as nat,
            failure: self.failure,
        }
    }
}

impl EnsureNodePlan {
    #[verifier::type_invariant]
    closed spec fn levels_match(&self) -> bool {
        &&& strs_view(self.levels@) == level_paths(self.segments@)
        &&& self.levels.len() == self.segments@.len()
        &&& self@.well_formed()
    }

    /// The plan that makes sure of the node `path`, created with `payload` if it does not
    /// exist. A path without segments leads to no node and is refused.
    pub fn new(path: &str, payload: Vec<u8>) -> (plan: Result<EnsureNodePlan, AdminError>)
        ensures
            segments(path@).len() == 0 ==> plan == Err::<EnsureNodePlan, AdminError>(
                AdminError::InvalidPath,
            ),
            segments(path@).len() > 0 ==> plan is Ok && plan->Ok_0@ == EnsureNodePlanView::fresh(
                segments(path@),
                payload@,
            ) && plan->Ok_0@.well_formed(),
    {
        let segs = path_segments(path);
        if segs.len() == 0 {
            return Err(AdminError::InvalidPath);
        }
        proof {
            crate::zk_path::lemma_segments_are_segments(path@);
        }
        let levels = paths_of_levels(&segs);
        assert(levels.len() == strs_view(levels@).len());
        assert(segs.len() == strs_view(segs@).len());
        Ok(
            EnsureNodePlan {
                levels,
                payload,
                next: 0,
                failure: None,
                segments: Ghost(segments(path@)),
            },
        )
    }

    /// What the client does next.
    pub fn action(&self) -> (action: AdminAction)
        ensures
            action@ == self@.action(),
    {
        proof {
            use_type_invariant(self);
        }
        match self.failure {
            Some(error) => AdminAction::Failed(error),
            None => {
                if self.next >= self.levels.len() {
                    AdminAction::Done
                } else {
                    let data = if self.next == self.levels.len() - 1 {
                        self.payload.clone()
                    } else {
                        Vec::new()
                    };
                    assert(strs_view(self.levels@)[self.next as int] == self.levels[self.next as int]@);
                    AdminAction::Create { path: self.levels[self.next].clone(), data }
                }
            },
        }
    }

    /// Takes note of the service's reply to the call that [`Self::action`] asked for.
    pub fn record(&mut self, reply: CreateReply)
        ensures
            final(self)@ == old(self)@.after(reply),
    {
        proof {
            use_type_invariant(&*self);
        }
        if self.failure.is_none() && self.next < self.levels.len() {
            match reply {
                CreateReply::Created => {
                    self.next = self.next + 1;
                },
                CreateReply::Refused(code) => {
                    if code == CODE_NODE_EXISTS {
                        self.next = self.next + 1;
                    } else {
                        self.failure = Some(classify_code(code));
                    }
                },
            }
        }
    }
}

/// The text that stands before the ensemble size in the data of a cluster's node.
pub const CLUSTER_SIZE_KEY: &'static str = "CLUSTER_SIZE=";

/// The node under which the operator keeps one node for each cluster.
pub const META_ROOT: &'static str = "/zookeeper-operator";

/// The decimal digits of `n`, as ASCII bytes, without leading zeros.
pub open spec fn decimal_digits(n: nat) -> Seq<u8>
    decreases n,
{
    if n < 10 {
        seq![(48 + n) as u8]
    } else {
        decimal_digits(n / 10).push((48 + n % 10) as u8)
    }
}

/// `value` in decimal, as ASCII bytes, with a minus sign if it is negative.
pub open spec fn decimal(value: int) -> Seq<u8> {
    if value < 0 {
        seq![45u8] + decimal_digits((-value) as nat)
    } else {
        decimal_digits(value as nat)
    }
}

/// The data of the node of a cluster of `replicas` members: `CLUSTER_SIZE=` and the number.
pub open spec fn cluster_size_data(replicas: i32) -> Seq<u8> {
    CLUSTER_SIZE_KEY.spec_bytes() + decimal(replicas as int)
}

/// The path of the node of the cluster `name`, below the operator's root node.
pub open spec fn cluster_node_path(name: Seq<char>) -> Seq<char> {
    META_ROOT@ + seq!['/'] + name
}

/// Appends the decimal digits of `n` to `out`.
fn push_decimal_digits(out: &mut Vec<u8>, n: u32)
    ensures
        final(out)@ == old(out)@ + decimal_digits(n as nat),
    decreases n,
{
    if n >= 10 {
        push_decimal_digits(out, n / 10);
    }
    let digit: u8 = 48 + (n % 10) as u8;
    out.push(digit);
    assert(out@ =~= old(out)@ + decimal_digits(n as nat));
}

/// The data of the node of a cluster of `replicas` members.
pub fn cluster_size_payload(replicas: i32) -> (data: Vec<u8>)
    ensures
        data@ == cluster_size_data(replicas),
{
    let mut data = slice_to_vec(CLUSTER_SIZE_KEY.as_bytes());
    if replicas < 0 {
        data.push(45u8);
        let magnitude: u32 = if replicas == i32::MIN {
            0x8000_0000u32
        } else {
            (-replicas) as u32
        };
        push_decimal_digits(&mut data, magnitude);
    } else {
        push_decimal_digits(&mut data, replicas as u32);
    }
    assert(data@ =~= cluster_size_data(replicas));
    data
}

/// The path of the node of the cluster `name`.
pub fn cluster_node(name: &str) -> (path: String)
    ensures
        path@ == cluster_node_path(name@),
{
    let mut path = META_ROOT.to_owned();
    proof {
        reveal_strlit("/");
        assert("/"@ =~= seq!['/']);
    }
    vstd::string::StringExecFns::append(&mut path, "/");
    vstd::string::StringExecFns::append(&mut path, name);
    path
}

} // verus!
