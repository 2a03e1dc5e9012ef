//! One reconciliation pass over a cluster, as a machine of states and events.
//!
//! The caller performs each action that the machine asks for (a patch, a call to the
//! coordination service, the apply of the child resources) and hands back what came of it.
//! The machine decides what follows.

use vstd::prelude::*;
use crate::cluster::{ZookeeperCluster, ZookeeperClusterView};
use crate::cluster_spec::ZookeeperClusterSpecView;
use crate::members::{observations_view, MemberObservation, MemberObservationView};
use crate::status::{ZookeeperClusterStatus, ZookeeperClusterStatusView};
use crate::zk_admin::{cluster_node, cluster_node_path, cluster_size_data, cluster_size_payload};

verus! {

/// Seconds until the next pass after a pass that went well.
pub const RESYNC_SECONDS: u64 = 300;

/// Seconds until the next pass after a pass that met an error.
pub const ERROR_BACKOFF_SECONDS: u64 = 60;

/// Seconds until the next pass after the desired state was patched: none, since the patch
/// is itself a change that asks for a pass.
pub const SPEC_PATCH_REQUEUE_SECONDS: u64 = 0;

/// Where a pass stands.
#[derive(Clone, Copy, Debug, PartialEq, Eq, Structural)]
pub enum Phase {
    /// Nothing was done yet.
    Begin,
    /// The defaulted desired state is being persisted.
    SpecPatch,
    /// The cluster's node in the coordination service is being made sure of.
    MetaNode,
    /// The child resources are being applied and the members observed.
    Children,
    /// The restart of the members is being started.
    RestartSweep,
    /// The cleared restart flag is being persisted.
    FlagPatch,
    /// The observed state is being persisted.
    StatusPatch,
    /// The pass is over.
    End,
}

/// What came of the action that the machine asked for.
#[derive(Clone, Debug, PartialEq, Eq)]
pub enum Event {
    /// The pass begins.
    Start,
    /// The desired state was persisted.
    SpecPatched,
    /// The cluster's node exists in the coordination service.
    MetaNodeEnsured,
    /// The child resources were applied; these members were observed.
    ChildrenApplied(Vec<MemberObservation>),
    /// The restart of the members is under way.
    RestartSweepStarted,
    /// The observed state was persisted.
    StatusPatched,
    /// The action failed.
    Failed,
}

/// Mathematical value of an [`Event`].
pub enum EventView {
    Start,
    SpecPatched,
    MetaNodeEnsured,
    ChildrenApplied(Seq<MemberObservationView>),
    RestartSweepStarted,
    StatusPatched,
    Failed,
}

impl View for Event {
    type V = EventView;

    open spec fn view(&self) -> EventView {
        match self {
            Event::Start => EventView::Start,
            Event::SpecPatched => EventView::SpecPatched,
            Event::MetaNodeEnsured => EventView::MetaNodeEnsured,
            Event::ChildrenApplied(observations) => EventView::ChildrenApplied(
                observations_view(observations@),
            ),
            Event::RestartSweepStarted => EventView::RestartSweepStarted,
            Event::StatusPatched => EventView::StatusPatched,
            Event::Failed => EventView::Failed,
        }
    }
}

/// What the caller is to do next.
#[derive(Clone, Debug, PartialEq, Eq)]
pub enum Action {
    /// Persist the cluster's desired state as the machine holds it.
    PatchSpec,
    /// Make sure that the node `path` exists, created with `payload` if it does not.
    EnsureMetaNode { path: String, payload: Vec<u8> },
    /// Apply the child resources and observe the members.
    ApplyChildren,
    /// Start the restart of the members, one after the other.
    StartRestartSweep,
    /// Persist the cluster's observed state as the machine holds it.
    PatchStatus,
    /// End the pass and come back after this many seconds.
    Requeue { after_seconds: u64 },
}

/// Mathematical value of an [`Action`].
pub enum ActionView {
    PatchSpec,
    EnsureMetaNode { path: Seq<char>, payload: Seq<u8> },
    ApplyChildren,
    StartRestartSweep,
    PatchStatus,
    Requeue { after_seconds: u64 },
}

impl View for Action {
    type V = ActionView;

    open spec fn view(&self) -> ActionView {
        match self {
            Action::PatchSpec => ActionView::PatchSpec,
            Action::EnsureMetaNode { path, payload } => ActionView::EnsureMetaNode {
                path: path@,
                payload: payload@,
            },
            Action::ApplyChildren => ActionView::ApplyChildren,
            Action::StartRestartSweep => ActionView::StartRestartSweep,
            Action::PatchStatus => ActionView::PatchStatus,
            Action::Requeue { after_seconds } => ActionView::Requeue {
                after_seconds: *after_seconds,
            },
        }
    }
}

/// A reconciliation pass over one cluster.
#[derive(Clone, Debug, PartialEq, Eq)]
pub struct Reconciliation {
    /// The cluster as the pass has made it so far.
    pub cluster: ZookeeperCluster,
    /// The observed state as it was persisted when the pass began.
    pub seen: ZookeeperClusterStatus,
    pub phase: Phase,
}

/// Mathematical value of a [`Reconciliation`].
pub struct ReconciliationView {
    pub cluster: ZookeeperClusterView,
    pub seen: ZookeeperClusterStatusView,
    pub phase: Phase,
}

impl View for Reconciliation {
    type V = ReconciliationView;

    open spec fn view(&self) -> ReconciliationView {
        ReconciliationView { cluster: self.cluster@, seen: self.seen@, phase: self.phase }
    }
}

impl ReconciliationView {
    /// The pass over `cluster` before anything was done.
    pub open spec fn begin(cluster: ZookeeperClusterView) -> ReconciliationView {
        ReconciliationView { cluster, seen: cluster.status, phase: Phase::Begin }
    }

    /// The pass, ended by an error: the cluster comes back after the error backoff.
    pub open spec fn failed(self) -> (ReconciliationView, ActionView) {
        (
            ReconciliationView { phase: Phase::End, ..self },
            ActionView::Requeue { after_seconds: ERROR_BACKOFF_SECONDS },
        )
    }

    /// The end of a pass that went well: the observed state is persisted if it is not
    /// what was persisted when the pass began, and else the pass is over.
    pub open spec fn concluded(self) -> (ReconciliationView, ActionView) {
        if self.cluster.status != self.seen {
            (ReconciliationView { phase: Phase::StatusPatch, ..self }, ActionView::PatchStatus)
        } else {
            (
                ReconciliationView { phase: Phase::End, ..self },
                ActionView::Requeue { after_seconds: RESYNC_SECONDS },
            )
        }
    }

    /// The beginning of a pass: the desired state is defaulted. If that changed it, the
    /// change is persisted and nothing else is done in this pass. Else the cluster's node
    /// is made sure of, with the ensemble size as its data.
    pub open spec fn started(self) -> (ReconciliationView, ActionView) {
        let spec = self.cluster.spec.defaulted(self.cluster.name);
        let cluster = ZookeeperClusterView { spec, ..self.cluster };
        if !self.cluster.spec.is_complete() {
            (ReconciliationView { cluster, phase: Phase::SpecPatch, ..self }, ActionView::PatchSpec)
        } else {
            (
                ReconciliationView { cluster, phase: Phase::MetaNode, ..self },
                ActionView::EnsureMetaNode {
                    path: cluster_node_path(self.cluster.name),
                    payload: cluster_size_data(spec.replicas),
                },
            )
        }
    }

    /// The observed state after the members were observed at `now`: membership and
    /// readiness are taken from the observations, and the members' image tags are held
    /// against the desired tag.
    pub open spec fn status_after(
        self,
        obs: Seq<MemberObservationView>,
        now: Seq<char>,
    ) -> ZookeeperClusterStatusView {
        let observed = self.cluster.status.observed(obs, self.cluster.spec.replicas, now);
        match self.cluster.desired_tag() {
            Some(tag) => observed.versions_tracked(tag, obs, now),
            None => observed,
        }
    }

    /// The pass after the child resources were applied and the members observed: the
    /// observed state is brought up to date; then the members are restarted if the user
    /// asks for it, and else the pass is concluded.
    pub open spec fn observed(
        self,
        obs: Seq<MemberObservationView>,
        now: Seq<char>,
    ) -> (ReconciliationView, ActionView) {
        let cluster = ZookeeperClusterView { status: self.status_after(obs, now), ..self.cluster };
        let next = ReconciliationView { cluster, ..self };
        if cluster.wants_rolling_restart() {
            (
                ReconciliationView { phase: Phase::RestartSweep, ..next },
                ActionView::StartRestartSweep,
            )
        } else {
            next.concluded()
        }
    }

    /// The pass after the restart of the members was started: the flag that asked for it
    /// is cleared, and the cleared flag is persisted.
    pub open spec fn sweep_started(self) -> (ReconciliationView, ActionView) {
        let spec = ZookeeperClusterSpecView {
            trigger_rolling_restart: Some(false),
            ..self.cluster.spec
        };
        let cluster = ZookeeperClusterView { spec, ..self.cluster };
        (ReconciliationView { cluster, phase: Phase::FlagPatch, ..self }, ActionView::PatchSpec)
    }

    /// The pass after `event` came in at the time `now`, and what the caller is to do next.
    ///
    /// An event that does not answer the action that the pass waits for, and the event
    /// that the action failed, end the pass with the error backoff.
    pub open spec fn step(self, event: EventView, now: Seq<char>) -> (ReconciliationView, ActionView) {
        match (self.phase, event) {
            (Phase::Begin, EventView::Start) => self.started(),
            (Phase::SpecPatch, EventView::SpecPatched) => (
                ReconciliationView { phase: Phase::End, ..self },
                ActionView::Requeue { after_seconds: SPEC_PATCH_REQUEUE_SECONDS },
            ),
            (Phase::MetaNode, EventView::MetaNodeEnsured) => (
                ReconciliationView {
                    cluster: ZookeeperClusterView {
                        status: ZookeeperClusterStatusView {
                            meta_root_created: true,
                            ..self.cluster.status
                        },
                        ..self.cluster
                    },
                    phase: Phase::Children,
                    ..self
                },
                ActionView::ApplyChildren,
            ),
            (Phase::Children, EventView::ChildrenApplied(obs)) => self.observed(obs, now),
            (Phase::RestartSweep, EventView::RestartSweepStarted) => self.sweep_started(),
            (Phase::FlagPatch, EventView::SpecPatched) => self.concluded(),
            (Phase::StatusPatch, EventView::StatusPatched) => (
                ReconciliationView { phase: Phase::End, ..self },
                ActionView::Requeue { after_seconds: RESYNC_SECONDS },
            ),
            _ => self.failed(),
        }
    }
}

impl Reconciliation {
    /// A pass over `cluster`, before anything was done.
    pub fn begin(cluster: ZookeeperCluster) -> (pass: Reconciliation)
        ensures
            pass@ == ReconciliationView::begin(cluster@),
    {
        let seen = cluster.status.clone();
        Reconciliation { cluster, seen, phase: Phase::Begin }
    }

    /// Ends the pass with the error backoff.
    fn fail(&mut self) -> (action: Action)
        ensures
            (final(self)@, action@) == old(self)@.failed(),
    {
        self.phase = Phase::End;
        Action::Requeue { after_seconds: ERROR_BACKOFF_SECONDS }
    }

    /// Concludes a pass that went well.
    fn conclude(&mut self) -> (action: Action)
        ensures
            (final(self)@, action@) == old(self)@.concluded(),
    {
        if !self.cluster.status.same_as(&self.seen) {
            self.phase = Phase::StatusPatch;
            Action::PatchStatus
        } else {
            self.phase = Phase::End;
            Action::Requeue { after_seconds: RESYNC_SECONDS }
        }
    }

    /// Begins the pass: defaults the desired state, and either has the change persisted
    /// or goes on to the cluster's node.
    fn start(&mut self) -> (action: Action)
        ensures
            (final(self)@, action@) == old(self)@.started(),
    {
        let changed = self.cluster.with_defaults();
        if changed {
            self.phase = Phase::SpecPatch;
            Action::PatchSpec
        } else {
            self.phase = Phase::MetaNode;
            Action::EnsureMetaNode {
                path: cluster_node(self.cluster.name.as_str()),
                payload: cluster_size_payload(self.cluster.spec.replicas),
            }
        }
    }

    /// Brings the observed state up to date with the observations, and either has the
    /// members restarted or concludes the pass.
    fn observe(&mut self, observations: &Vec<MemberObservation>, now: &str) -> (action: Action)
        ensures
            (final(self)@, action@) == old(self)@.observed(observations_view(observations@), now@),
    {
        self.cluster.status.observe_members(observations, self.cluster.spec.replicas, now);
        match &self.cluster.spec.image {
            Some(image) => match &image.tag {
                Some(tag) => {
                    self.cluster.status.track_versions(tag.as_str(), observations, now);
                },
                None => {},
            },
            None => {},
        }
        if self.cluster.get_trigger_rolling_restart() {
            self.phase = Phase::RestartSweep;
            Action::StartRestartSweep
        } else {
            self.conclude()
        }
    }

    /// Takes in what came of the last action, at the time `now`, and says what the caller
    /// is to do next.
    pub fn step(&mut self, event: Event, now: &str) -> (action: Action)
        ensures
            (final(self)@, action@) == old(self)@.step(event@, now@),
    {
        match (self.phase, event) {
            (Phase::Begin, Event::Start) => self.start(),
            (Phase::SpecPatch, Event::SpecPatched) => {
                self.phase = Phase::End;
                Action::Requeue { after_seconds: SPEC_PATCH_REQUEUE_SECONDS }
            },
            (Phase::MetaNode, Event::MetaNodeEnsured) => {
                self.cluster.status.meta_root_created = true;
                self.phase = Phase::Children;
                Action::ApplyChildren
            },
            (Phase::Children, Event::ChildrenApplied(observations)) => self.observe(
                &observations,
                now,
            ),
            (Phase::RestartSweep, Event::RestartSweepStarted) => {
                self.cluster.spec.trigger_rolling_restart = Some(false);
                self.phase = Phase::FlagPatch;
                Action::PatchSpec
            },
            (Phase::FlagPatch, Event::SpecPatched) => self.conclude(),
            (Phase::StatusPatch, Event::StatusPatched) => {
                self.phase = Phase::End;
                Action::Requeue { after_seconds: RESYNC_SECONDS }
            },
            _ => self.fail(),
        }
    }
}

} // verus!
