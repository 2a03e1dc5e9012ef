//! What holds of every reconciliation pass.

use vstd::prelude::*;
use crate::conditions::{lemma_report_is_recorded, position_of, ClusterConditionType, ConditionStatus};
use crate::config::or_flag;
use crate::members::{MemberObservationView, MembersStatusView};
use crate::reconcile::{
    ActionView, EventView, Phase, ReconciliationView, ERROR_BACKOFF_SECONDS, RESYNC_SECONDS,
    SPEC_PATCH_REQUEUE_SECONDS,
};
use crate::status::{
    lemma_versions_differ_only_mid_upgrade, pods_ready_report, upgraded_report, upgrading_report,
};

verus! {

/// How far a pass has come: a phase is never followed by one that stands lower.
pub open spec fn progress(phase: Phase) -> nat {
    match phase {
        Phase::Begin => 0,
        Phase::SpecPatch => 1,
        Phase::MetaNode => 1,
        Phase::Children => 2,
        Phase::RestartSweep => 3,
        Phase::FlagPatch => 4,
        Phase::StatusPatch => 5,
        Phase::End => 6,
    }
}

/// Every step takes a pass further, until it is over: a pass takes seven steps at most.
/// The pass is over exactly when the caller is told to come back later, and once it is
/// over every event is answered with the error backoff.
pub proof fn lemma_step_advances(pass: ReconciliationView, event: EventView, now: Seq<char>)
    ensures
        pass.phase != Phase::End ==> progress(pass.step(event, now).0.phase) > progress(pass.phase),
        pass.step(event, now).0.phase == Phase::End <==> pass.step(event, now).1 is Requeue,
        pass.phase == Phase::End ==> pass.step(event, now) == pass.failed(),
{
}

/// No failure ends a pass otherwise than with the error backoff, and a pass that went
/// well ends with the resync interval, or at once where the desired state was defaulted.
pub proof fn lemma_requeue_intervals(pass: ReconciliationView, event: EventView, now: Seq<char>)
    ensures
        event == EventView::Failed ==> pass.step(event, now).1 == (ActionView::Requeue {
            after_seconds: ERROR_BACKOFF_SECONDS,
        }),
        pass.step(event, now).1 matches ActionView::Requeue { after_seconds } ==> after_seconds
            == ERROR_BACKOFF_SECONDS || after_seconds == RESYNC_SECONDS || (after_seconds
            == SPEC_PATCH_REQUEUE_SECONDS && pass.phase == Phase::SpecPatch),
{
}

/// The restart of the members is asked for in one situation only: when the members were
/// observed and the user's flag is set. Since a pass goes through each phase once, it
/// asks for the restart once at most.
pub proof fn lemma_restart_is_asked_for_once(
    pass: ReconciliationView,
    event: EventView,
    now: Seq<char>,
)
    ensures
        pass.step(event, now).1 == ActionView::StartRestartSweep <==> pass.phase == Phase::Children
            && event is ChildrenApplied && pass.cluster.wants_rolling_restart(),
        pass.step(event, now).1 == ActionView::StartRestartSweep ==> pass.step(event, now).0.phase
            == Phase::RestartSweep,
{
}

/// The user's flag is cleared by nothing but the confirmation that the restart is under
/// way. The beginning of a pass gives a flag that is not stated the value false; every
/// other step, and every failure, leaves the flag as it is.
pub proof fn lemma_flag_is_cleared_by_confirmation(
    pass: ReconciliationView,
    event: EventView,
    now: Seq<char>,
)
    ensures
        ({
            let flag = pass.cluster.spec.trigger_rolling_restart;
            let after = pass.step(event, now).0.cluster.spec.trigger_rolling_restart;
            if pass.phase == Phase::RestartSweep && event == EventView::RestartSweepStarted {
                after == Some(false)
            } else if pass.phase == Phase::Begin && event == EventView::Start {
                after == or_flag(flag, false)
            } else {
                after == flag
            }
        }),
{
}

/// No step of a pass makes the current and the target version differ unless an upgrade is
/// under way.
pub proof fn lemma_step_keeps_versions_agreeing(
    pass: ReconciliationView,
    event: EventView,
    now: Seq<char>,
)
    requires
        pass.cluster.status.versions_agree(),
    ensures
        pass.step(event, now).0.cluster.status.versions_agree(),
{
    match event {
        EventView::ChildrenApplied(obs) => {
            let observed = pass.cluster.status.observed(obs, pass.cluster.spec.replicas, now);
            let tag = match pass.cluster.desired_tag() {
                Some(tag) => tag,
                None => Seq::empty(),
            };
            lemma_versions_differ_only_mid_upgrade(
                pass.cluster.status,
                obs,
                pass.cluster.spec.replicas,
                tag,
                now,
            );
            lemma_versions_differ_only_mid_upgrade(
                observed,
                obs,
                pass.cluster.spec.replicas,
                tag,
                now,
            );
        },
        _ => {},
    }
}

/// After the members were observed, the observed state holds the membership that was
/// observed, and its condition on the members' readiness holds exactly if as many
/// members are ready as the ensemble is meant to have.
pub proof fn lemma_pods_ready_follows_members(
    pass: ReconciliationView,
    obs: Seq<MemberObservationView>,
    now: Seq<char>,
)
    requires
        pass.phase == Phase::Children,
    ensures
        ({
            let after = pass.step(EventView::ChildrenApplied(obs), now).0.cluster.status;
            let at = position_of(after.conditions, ClusterConditionType::PodsReady);
            let ready = MembersStatusView::observed(obs).ready_replicas()
                == pass.cluster.spec.replicas;
            &&& after.members == MembersStatusView::observed(obs)
            &&& 0 <= at < after.conditions.len()
            &&& after.conditions[at].status == (if ready {
                ConditionStatus::True
            } else {
                ConditionStatus::False
            })
        }),
{
    let ready = MembersStatusView::observed(obs).ready_replicas() == pass.cluster.spec.replicas;
    let observed = pass.cluster.status.observed(obs, pass.cluster.spec.replicas, now);
    lemma_report_is_recorded(
        pass.cluster.status.conditions,
        pods_ready_report(ready),
        now,
        ClusterConditionType::PodsReady,
    );
    match pass.cluster.desired_tag() {
        Some(tag) => {
            lemma_report_is_recorded(
                observed.conditions,
                upgraded_report(),
                now,
                ClusterConditionType::PodsReady,
            );
            lemma_report_is_recorded(
                observed.conditions,
                upgrading_report(tag),
                now,
                ClusterConditionType::PodsReady,
            );
        },
        None => {},
    }
}

} // verus!
