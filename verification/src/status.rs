//! The observed state of a cluster.

use vstd::prelude::*;
use crate::conditions::{
    lemma_report_is_recorded, position_of, with_report, ClusterConditionType, ClusterConditionView,
    ConditionList, ConditionReport, ConditionStatus,
};
use crate::members::{
    observations_view, MemberObservation, MemberObservationView, MembersStatus, MembersStatusView,
};
use crate::text::{clone_opt_str, opt_str_is, opt_str_view, same_opt_str};

verus! {

/// Reason given while the members move to another image tag.
pub const REASON_UPGRADING: &'static str = "Upgrading";

/// The observed state of a cluster, which the operator keeps.
#[derive(Debug, PartialEq, Eq)]
pub struct ZookeeperClusterStatus {
    pub members: MembersStatus,
    /// Where clients inside the orchestrator's network connect, once that service exists.
    pub internal_client_endpoint: Option<String>,
    /// Where clients outside connect, once that service exists.
    pub external_client_endpoint: Option<String>,
    /// Whether the cluster's node exists in the coordination service.
    pub meta_root_created: bool,
    /// The image tag that the members run.
    pub current_version: Option<String>,
    /// The image tag that the members are moving to.
    pub target_version: Option<String>,
    pub conditions: ConditionList,
}

/// Mathematical value of a [`ZookeeperClusterStatus`].
pub struct ZookeeperClusterStatusView {
    pub members: MembersStatusView,
    pub internal_client_endpoint: Option<Seq<char>>,
    pub external_client_endpoint: Option<Seq<char>>,
    pub meta_root_created: bool,
    pub current_version: Option<Seq<char>>,
    pub target_version: Option<Seq<char>>,
    pub conditions: Seq<ClusterConditionView>,
}

impl View for ZookeeperClusterStatus {
    type V = ZookeeperClusterStatusView;

    open spec fn view(&self) -> ZookeeperClusterStatusView {
        ZookeeperClusterStatusView {
            members: self.members@,
            internal_client_endpoint: opt_str_view(self.internal_client_endpoint),
            external_client_endpoint: opt_str_view(self.external_client_endpoint),
            meta_root_created: self.meta_root_created,
            current_version: opt_str_view(self.current_version),
            target_version: opt_str_view(self.target_version),
            conditions: self.conditions@,
        }
    }
}

/// Whether every observed member runs the image tag `tag`.
pub open spec fn all_run(obs: Seq<MemberObservationView>, tag: Seq<char>) -> bool {
    forall|i: int| 0 <= i < obs.len() ==> (#[trigger] obs[i]).version == Some(tag)
}

/// The report that the members are ready, or are not.
pub open spec fn pods_ready_report(ready: bool) -> ConditionReport {
    ConditionReport {
        condition_type: ClusterConditionType::PodsReady,
        status: if ready {
            ConditionStatus::True
        } else {
            ConditionStatus::False
        },
        reason: Seq::empty(),
        message: Seq::empty(),
    }
}

/// The report that the members are moving to the image tag `tag`.
pub open spec fn upgrading_report(tag: Seq<char>) -> ConditionReport {
    ConditionReport {
        condition_type: ClusterConditionType::Upgrading,
        status: ConditionStatus::True,
        reason: REASON_UPGRADING@,
        message: tag,
    }
}

/// The report that no upgrade is under way.
pub open spec fn upgraded_report() -> ConditionReport {
    ConditionReport {
        condition_type: ClusterConditionType::Upgrading,
        status: ConditionStatus::False,
        reason: Seq::empty(),
        message: Seq::empty(),
    }
}

impl ZookeeperClusterStatusView {
    /// The state of a cluster of which nothing was observed yet.
    pub open spec fn empty() -> ZookeeperClusterStatusView {
        ZookeeperClusterStatusView {
            members: MembersStatusView::observed(Seq::empty()),
            internal_client_endpoint: None,
            external_client_endpoint: None,
            meta_root_created: false,
            current_version: None,
            target_version: None,
            conditions: Seq::empty(),
        }
    }

    /// Whether the condition on the upgrade says that one is under way.
    pub open spec fn is_upgrading(self) -> bool {
        let at = position_of(self.conditions, ClusterConditionType::Upgrading);
        0 <= at < self.conditions.len() && self.conditions[at].status == ConditionStatus::True
    }

    /// Whether the current and the target version differ only while an upgrade is under way.
    pub open spec fn versions_agree(self) -> bool {
        self.is_upgrading() || self.current_version == self.target_version
    }

    /// Number of members, ready or not.
    pub open spec fn replicas(self) -> i32 {
        self.members.replicas()
    }

    /// Number of members that are ready.
    pub open spec fn ready_replicas(self) -> i32 {
        self.members.ready_replicas()
    }

    /// The state after the members were observed at the time `now`, for an ensemble meant
    /// to have `desired` members: the membership is the observed one, and the members
    /// count as ready exactly if as many are ready as the ensemble is meant to have.
    pub open spec fn observed(
        self,
        obs: Seq<MemberObservationView>,
        desired: i32,
        now: Seq<char>,
    ) -> ZookeeperClusterStatusView {
        let members = MembersStatusView::observed(obs);
        ZookeeperClusterStatusView {
            members,
            conditions: with_report(
                self.conditions,
                pods_ready_report(members.ready_replicas() == desired),
                now,
            ),
            ..self
        }
    }

    /// The state after the members' image tags were held against the desired tag `tag` at
    /// the time `now`.
    ///
    /// While the current version is the desired one nothing changes. Otherwise the target
    /// version becomes the desired one; the upgrade is under way until every observed
    /// member runs it, and then the current version becomes the target version.
    pub open spec fn versions_tracked(
        self,
        tag: Seq<char>,
        obs: Seq<MemberObservationView>,
        now: Seq<char>,
    ) -> ZookeeperClusterStatusView {
        if self.current_version == Some(tag) {
            self
        } else if all_run(obs, tag) {
            ZookeeperClusterStatusView {
                current_version: Some(tag),
                target_version: Some(tag),
                conditions: with_report(self.conditions, upgraded_report(), now),
                ..self
            }
        } else {
            ZookeeperClusterStatusView {
                target_version: Some(tag),
                conditions: with_report(self.conditions, upgrading_report(tag), now),
                ..self
            }
        }
    }
}

impl Clone for ZookeeperClusterStatus {
    /// The same state.
    fn clone(&self) -> (copy: ZookeeperClusterStatus)
        ensures
            copy@ == self@,
    {
        ZookeeperClusterStatus {
            members: self.members.clone(),
            internal_client_endpoint: clone_opt_str(&self.internal_client_endpoint),
            external_client_endpoint: clone_opt_str(&self.external_client_endpoint),
            meta_root_created: self.meta_root_created,
            current_version: clone_opt_str(&self.current_version),
            target_version: clone_opt_str(&self.target_version),
            conditions: self.conditions.clone(),
        }
    }
}

/// The current and the target version differ only while an upgrade is under way: that
/// holds of the state of which nothing was observed yet, and neither the observation of
/// the members nor the tracking of their versions ends it.
pub proof fn lemma_versions_differ_only_mid_upgrade(
    status: ZookeeperClusterStatusView,
    obs: Seq<MemberObservationView>,
    desired: i32,
    tag: Seq<char>,
    now: Seq<char>,
)
    ensures
        ZookeeperClusterStatusView::empty().versions_agree(),
        status.versions_agree() ==> status.observed(obs, desired, now).versions_agree(),
        status.versions_agree() ==> status.versions_tracked(tag, obs, now).versions_agree(),
        status.current_version != Some(tag) ==> status.versions_tracked(
            tag,
            obs,
            now,
        ).versions_agree(),
{
    let members = MembersStatusView::observed(obs);
    lemma_report_is_recorded(
        status.conditions,
        pods_ready_report(members.ready_replicas() == desired),
        now,
        ClusterConditionType::Upgrading,
    );
    lemma_report_is_recorded(
        status.conditions,
        upgrading_report(tag),
        now,
        ClusterConditionType::Upgrading,
    );
}

/// Whether every observed member runs the image tag `tag`.
pub fn all_members_run(observations: &Vec<MemberObservation>, tag: &str) -> (all: bool)
    ensures
        all == all_run(observations_view(observations@), tag@),
{
    let mut i: usize = 0;
    while i < observations.len()
        invariant
            i <= observations.len(),
            forall|j: int|
                0 <= j < i ==> (#[trigger] observations_view(observations@)[j]).version == Some(
                    tag@,
                ),
        decreases observations.len() - i,
    {
        if !opt_str_is(&observations[i].version, tag) {
            assert(observations_view(observations@)[i as int].version != Some(tag@));
            return false;
        }
        i += 1;
    }
    true
}

impl ZookeeperClusterStatus {
    /// The state of a cluster of which nothing was observed yet.
    pub fn new() -> (status: ZookeeperClusterStatus)
        ensures
            status@ == ZookeeperClusterStatusView::empty(),
    {
        ZookeeperClusterStatus {
            members: MembersStatus::new(),
            internal_client_endpoint: None,
            external_client_endpoint: None,
            meta_root_created: false,
            current_version: None,
            target_version: None,
            conditions: ConditionList::new(),
        }
    }

    /// Number of members, ready or not.
    pub fn replicas(&self) -> (n: i32)
        ensures
            n == self@.replicas(),
    {
        self.members.replicas()
    }

    /// Number of members that are ready. It never exceeds the number of members.
    pub fn ready_replicas(&self) -> (n: i32)
        ensures
            n == self@.ready_replicas(),
            0 <= n <= self@.replicas(),
    {
        self.members.ready_replicas()
    }

    /// Takes note of the members as they were observed at the time `now`, for an ensemble
    /// meant to have `desired` members.
    pub fn observe_members(&mut self, observations: &Vec<MemberObservation>, desired: i32, now: &str)
        ensures
            final(self)@ == old(self)@.observed(observations_view(observations@), desired, now@),
    {
        self.members = MembersStatus::from_observations(observations);
        let ready = self.members.ready_replicas() == desired;
        self.conditions.set(
            ClusterConditionType::PodsReady,
            ConditionStatus::of(ready),
            "",
            "",
            now,
        );
        proof {
            reveal_strlit("");
            assert(""@ =~= Seq::<char>::empty());
        }
    }

    /// Holds the image tags that the members run against the desired tag `tag`, at the time
    /// `now`.
    pub fn track_versions(&mut self, tag: &str, observations: &Vec<MemberObservation>, now: &str)
        ensures
            final(self)@ == old(self)@.versions_tracked(
                tag@,
                observations_view(observations@),
                now@,
            ),
    {
        proof {
            reveal_strlit("");
            assert(""@ =~= Seq::<char>::empty());
        }
        if opt_str_is(&self.current_version, tag) {
            return ;
        }
        self.target_version = Some(tag.to_owned());
        if all_members_run(observations, tag) {
            self.current_version = Some(tag.to_owned());
            self.conditions.set(
                ClusterConditionType::Upgrading,
                ConditionStatus::False,
                "",
                "",
                now,
            );
        } else {
            self.conditions.set(
                ClusterConditionType::Upgrading,
                ConditionStatus::True,
                REASON_UPGRADING,
                tag,
                now,
            );
        }
    }

    /// Whether two states are the same in every part.
    pub fn same_as(&self, other: &ZookeeperClusterStatus) -> (same: bool)
        ensures
            same == (self@ == other@),
    {
        self.members.same_as(&other.members) && same_opt_str(
            &self.internal_client_endpoint,
            &other.internal_client_endpoint,
        ) && same_opt_str(&self.external_client_endpoint, &other.external_client_endpoint)
            && self.meta_root_created == other.meta_root_created && same_opt_str(
            &self.current_version,
            &other.current_version,
        ) && same_opt_str(&self.target_version, &other.target_version) && self.conditions.same_as(
            &other.conditions,
        )
    }
}

} // verus!
