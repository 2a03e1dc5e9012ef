//! A model of the coordination service's node tree, and what the administrative client
//! achieves against it.
//!
//! The model states how the service answers a request on a given tree when nothing else
//! goes wrong: no lost connection, no concurrent writer. The laws below are proved of the
//! client's decisions run against these answers.

use vstd::prelude::*;
use crate::zk_admin::{
    update_outcome_of, version_outcome_of, AdminActionView, AdminError, CreateReply,
    EnsureNodePlanView, ExistsReply, WriteReply, CODE_BAD_VERSION, CODE_NODE_EXISTS, CODE_NO_NODE,
};
use crate::zk_path::{lemma_parent_of_path, level_paths, parent_path, path_of};

verus! {

/// A node of the tree: its data and the number of times the data was replaced.
pub struct Znode {
    pub data: Seq<u8>,
    pub version: i32,
}

/// The tree of nodes, by path. The root, whose path is the empty text, always exists and
/// is not listed.
pub struct NodeTree {
    pub nodes: Map<Seq<char>, Znode>,
}

/// The version that follows `version`.
pub open spec fn next_version(version: i32) -> i32 {
    if version == i32::MAX {
        i32::MIN
    } else {
        (version + 1) as i32
    }
}

impl NodeTree {
    /// Whether the node `path` exists.
    pub open spec fn has(self, path: Seq<char>) -> bool {
        path.len() == 0 || self.nodes.contains_key(path)
    }

    /// The service's reply to the request to create `path`: it refuses a node that exists,
    /// and a node below one that does not.
    pub open spec fn create_reply(self, path: Seq<char>) -> CreateReply {
        if self.has(path) {
            CreateReply::Refused(CODE_NODE_EXISTS)
        } else if !self.has(parent_path(path)) {
            CreateReply::Refused(CODE_NO_NODE)
        } else {
            CreateReply::Created
        }
    }

    /// The tree after the request to create `path` with `data`: the node is added at
    /// version 0 if the service did not refuse, and nothing changes if it did.
    pub open spec fn after_create(self, path: Seq<char>, data: Seq<u8>) -> NodeTree {
        if self.create_reply(path) == CreateReply::Created {
            NodeTree { nodes: self.nodes.insert(path, Znode { data, version: 0 }) }
        } else {
            self
        }
    }

    /// The service's reply to the question whether `path` exists.
    pub open spec fn exists_reply(self, path: Seq<char>) -> ExistsReply {
        if self.nodes.contains_key(path) {
            ExistsReply::Found(self.nodes[path].version)
        } else {
            ExistsReply::Missing
        }
    }

    /// The service's reply to the request to replace the data of `path`, expecting the
    /// node at version `expected`.
    pub open spec fn write_reply(self, path: Seq<char>, expected: i32) -> WriteReply {
        if !self.nodes.contains_key(path) {
            WriteReply::Refused(CODE_NO_NODE)
        } else if self.nodes[path].version != expected {
            WriteReply::Refused(CODE_BAD_VERSION)
        } else {
            WriteReply::Written(next_version(expected))
        }
    }

    /// The tree after the request to replace the data of `path` by `data`, expecting
    /// version `expected`.
    pub open spec fn after_write(self, path: Seq<char>, data: Seq<u8>, expected: i32) -> NodeTree {
        if self.write_reply(path, expected) is Written {
            NodeTree {
                nodes: self.nodes.insert(path, Znode { data, version: next_version(expected) }),
            }
        } else {
            self
        }
    }
}

/// Number of calls that a plan may still make.
pub open spec fn calls_left(plan: EnsureNodePlanView) -> nat {
    if plan.is_pending() {
        (plan.segments.len() - plan.next) as nat
    } else {
        0
    }
}

/// The tree that the client leaves behind when it follows `plan` on `tree` to its end.
pub open spec fn ensured_tree(plan: EnsureNodePlanView, tree: NodeTree) -> NodeTree
    decreases calls_left(plan),
{
    match plan.action() {
        AdminActionView::Create { path, data } => ensured_tree(
            plan.after(tree.create_reply(path)),
            tree.after_create(path, data),
        ),
        _ => tree,
    }
}

/// How the client ends when it follows `plan` on `tree`: done, or failed.
pub open spec fn ensured_end(plan: EnsureNodePlanView, tree: NodeTree) -> AdminActionView
    decreases calls_left(plan),
{
    match plan.action() {
        AdminActionView::Create { path, data } => ensured_end(
            plan.after(tree.create_reply(path)),
            tree.after_create(path, data),
        ),
        end => end,
    }
}

/// Whether the levels of `plan` that are done exist in `tree`.
pub open spec fn done_levels_exist(plan: EnsureNodePlanView, tree: NodeTree) -> bool {
    forall|i: int| 0 <= i < plan.next ==> tree.has(#[trigger] plan.levels()[i])
}

/// The node above a level of a plan is the level before it, or the root.
proof fn lemma_level_parent(plan: EnsureNodePlanView, level: int)
    requires
        plan.well_formed(),
        0 <= level < plan.segments.len(),
    ensures
        plan.levels()[level].len() > 0,
        level == 0 ==> parent_path(plan.levels()[level]).len() == 0,
        level > 0 ==> parent_path(plan.levels()[level]) == plan.levels()[level - 1],
{
    let upto = plan.segments.take(level + 1);
    assert(upto.last() == plan.segments[level]);
    lemma_parent_of_path(upto);
    assert(upto.drop_last() =~= plan.segments.take(level));
    if level == 0 {
        assert(path_of(plan.segments.take(0)) =~= Seq::<char>::empty());
    }
}

/// Following a plan whose done levels exist ends well, leaves every level in the tree,
/// and changes no node that was there.
proof fn lemma_ensure_completes(plan: EnsureNodePlanView, tree: NodeTree)
    requires
        plan.well_formed(),
        plan.failure is None,
        done_levels_exist(plan, tree),
    ensures
        ensured_end(plan, tree) == AdminActionView::Done,
        forall|i: int|
            0 <= i < plan.segments.len() ==> ensured_tree(plan, tree).has(
                #[trigger] plan.levels()[i],
            ),
        forall|p: Seq<char>| #[trigger]
            tree.nodes.contains_key(p) ==> ensured_tree(plan, tree).nodes.contains_key(p)
                && ensured_tree(plan, tree).nodes[p] == tree.nodes[p],
        forall|p: Seq<char>| #[trigger]
            ensured_tree(plan, tree).nodes.contains_key(p) && !tree.nodes.contains_key(p) ==> exists|
                i: int,
            |
                plan.next <= i < plan.segments.len() && p == plan.levels()[i] && ensured_tree(
                    plan,
                    tree,
                ).nodes[p] == (Znode { data: plan.data_at(i), version: 0 }),
    decreases calls_left(plan),
{
    if plan.is_pending() {
        let level = plan.next as int;
        let path = plan.levels()[level];
        let data = plan.data_at(level);
        lemma_level_parent(plan, level);
        if level > 0 {
            assert(tree.has(plan.levels()[level - 1]));
        }
        let reply = tree.create_reply(path);
        let tree1 = tree.after_create(path, data);
        let plan1 = plan.after(reply);
        assert(reply == CreateReply::Created || reply == CreateReply::Refused(CODE_NODE_EXISTS));
        assert(plan1.next == plan.next + 1 && plan1.failure is None);
        assert(tree1.has(path));
        assert forall|i: int| 0 <= i < plan1.next implies tree1.has(#[trigger] plan1.levels()[i]) by {
            if i < plan.next {
                assert(tree.has(plan.levels()[i]));
            }
        }
        lemma_ensure_completes(plan1, tree1);
        let last = ensured_tree(plan, tree);
        assert(last == ensured_tree(plan1, tree1));
        assert forall|p: Seq<char>| #[trigger] tree.nodes.contains_key(p) implies last.nodes.contains_key(
            p,
        ) && last.nodes[p] == tree.nodes[p] by {
            assert(tree1.nodes.contains_key(p) && tree1.nodes[p] == tree.nodes[p]);
        }
        assert forall|p: Seq<char>| #[trigger]
            last.nodes.contains_key(p) && !tree.nodes.contains_key(p) implies exists|i: int|
            plan.next <= i < plan.segments.len() && p == plan.levels()[i] && last.nodes[p] == (Znode {
                data: plan.data_at(i),
                version: 0,
            }) by {
            if tree1.nodes.contains_key(p) {
                assert(p == path);
                assert(last.nodes[p] == tree1.nodes[p]);
                assert(p == plan.levels()[level] && last.nodes[p] == (Znode {
                    data: plan.data_at(level),
                    version: 0,
                }));
            } else {
                let i = choose|i: int|
                    plan1.next <= i < plan1.segments.len() && p == plan1.levels()[i]
                        && last.nodes[p] == (Znode { data: plan1.data_at(i), version: 0 });
                assert(plan.next <= i < plan.segments.len() && p == plan.levels()[i]
                    && last.nodes[p] == (Znode { data: plan.data_at(i), version: 0 }));
            }
        }
    }
}

/// Following a plan on a tree that holds all its levels ends well and leaves the tree as
/// it is.
proof fn lemma_ensure_on_complete_tree(plan: EnsureNodePlanView, tree: NodeTree)
    requires
        plan.well_formed(),
        plan.failure is None,
        forall|i: int| 0 <= i < plan.segments.len() ==> tree.has(#[trigger] plan.levels()[i]),
    ensures
        ensured_end(plan, tree) == AdminActionView::Done,
        ensured_tree(plan, tree) == tree,
    decreases calls_left(plan),
{
    if plan.is_pending() {
        let path = plan.levels()[plan.next as int];
        assert(tree.has(path));
        lemma_ensure_on_complete_tree(plan.after(tree.create_reply(path)), tree);
    }
}

/// Making sure of a node succeeds on every tree: afterwards the node and every level
/// above it exist, what was in the tree is unchanged, and what was added is empty but
/// for the node itself, which holds the payload at version 0.
pub proof fn lemma_ensure_node_succeeds(
    segments: Seq<Seq<char>>,
    payload: Seq<u8>,
    tree: NodeTree,
)
    requires
        EnsureNodePlanView::fresh(segments, payload).well_formed(),
    ensures
        ({
            let plan = EnsureNodePlanView::fresh(segments, payload);
            let after = ensured_tree(plan, tree);
            &&& ensured_end(plan, tree) == AdminActionView::Done
            &&& after.has(plan.target())
            &&& forall|i: int| 0 <= i < segments.len() ==> after.has(#[trigger] plan.levels()[i])
            &&& forall|p: Seq<char>| #[trigger]
                tree.nodes.contains_key(p) ==> after.nodes.contains_key(p) && after.nodes[p]
                    == tree.nodes[p]
            &&& !tree.has(plan.target()) ==> after.nodes[plan.target()] == (Znode {
                data: payload,
                version: 0,
            })
        }),
{
    let plan = EnsureNodePlanView::fresh(segments, payload);
    let after = ensured_tree(plan, tree);
    lemma_ensure_completes(plan, tree);
    let target = plan.target();
    assert(target == plan.levels()[segments.len() - 1]);
    if !tree.has(target) {
        lemma_level_parent(plan, segments.len() - 1);
        let i = choose|i: int|
            0 <= i < segments.len() && target == plan.levels()[i] && after.nodes[target] == (Znode {
                data: plan.data_at(i),
                version: 0,
            });
        lemma_levels_differ(plan, i, segments.len() - 1);
    }
}

/// Two levels of a plan have different paths.
proof fn lemma_levels_differ(plan: EnsureNodePlanView, i: int, j: int)
    requires
        plan.well_formed(),
        0 <= i <= j < plan.segments.len(),
        plan.levels()[i] == plan.levels()[j],
    ensures
        i == j,
    decreases j,
{
    lemma_level_parent(plan, i);
    lemma_level_parent(plan, j);
    if i < j {
        if i == 0 {
            lemma_level_parent(plan, j - 1);
        } else {
            lemma_levels_differ(plan, i - 1, j - 1);
        }
    }
}

/// Idempotence of making sure of a node: on every tree a first run succeeds, and a second
/// run on the tree that the first left behind succeeds too and changes nothing, so that
/// the node keeps its data and its version.
pub proof fn lemma_ensure_node_is_idempotent(
    segments: Seq<Seq<char>>,
    payload: Seq<u8>,
    tree: NodeTree,
)
    requires
        EnsureNodePlanView::fresh(segments, payload).well_formed(),
    ensures
        ({
            let plan = EnsureNodePlanView::fresh(segments, payload);
            let once = ensured_tree(plan, tree);
            let twice = ensured_tree(plan, once);
            &&& ensured_end(plan, tree) == AdminActionView::Done
            &&& ensured_end(plan, once) == AdminActionView::Done
            &&& twice == once
            &&& twice.exists_reply(plan.target()) == once.exists_reply(plan.target())
            &&& version_outcome_of(once.exists_reply(plan.target())) is Ok
        }),
{
    let plan = EnsureNodePlanView::fresh(segments, payload);
    let once = ensured_tree(plan, tree);
    lemma_ensure_completes(plan, tree);
    lemma_ensure_on_complete_tree(plan, once);
    lemma_level_parent(plan, segments.len() - 1);
    assert(once.has(plan.levels()[segments.len() - 1]));
}

/// Optimistic update: an update succeeds exactly when the expected version is the
/// version that the node has just before; then the node holds the new data at the next
/// version. If the node has another version the update fails with a version conflict,
/// and if there is no node it fails as not found; either way the tree is unchanged.
pub proof fn lemma_update_succeeds_iff_version_matches(
    tree: NodeTree,
    path: Seq<char>,
    data: Seq<u8>,
    expected: i32,
)
    ensures
        ({
            let outcome = update_outcome_of(tree.write_reply(path, expected));
            let after = tree.after_write(path, data, expected);
            let version_before = version_outcome_of(tree.exists_reply(path));
            &&& outcome is Ok <==> version_before == Ok::<i32, AdminError>(expected)
            &&& outcome is Ok ==> outcome == Ok::<i32, AdminError>(next_version(expected))
                && after.nodes == tree.nodes.insert(
                path,
                Znode { data, version: next_version(expected) },
            )
            &&& version_before is Ok && version_before != Ok::<i32, AdminError>(expected)
                ==> outcome == Err::<i32, AdminError>(AdminError::VersionConflict)
            &&& version_before is Err ==> outcome == Err::<i32, AdminError>(AdminError::NotFound)
            &&& outcome is Err ==> after == tree
        }),
{
}

} // verus!
