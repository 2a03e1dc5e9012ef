//! What holds of the defaulting rules taken together.

use vstd::prelude::*;
use crate::cluster_spec::ZookeeperClusterSpecView;
use crate::config::{session_timeout, ZookeeperConfigView};
use crate::ports::{
    has_canonical_ports, lemma_canonical_ports_are_fixed, lemma_merge_keeps_given_ports,
    lemma_merged_ports_are_canonical, ContainerPortView,
};
use crate::storage::lemma_default_volume_size_is_not_zero;

verus! {

/// The two storage types are different words.
pub proof fn lemma_storage_types_differ()
    ensures
        crate::storage::STORAGE_TYPE_EPHEMERAL@ != crate::storage::STORAGE_TYPE_PERSISTENCE@,
{
    reveal_strlit("ephemeral");
    reveal_strlit("persistence");
    assert(crate::storage::STORAGE_TYPE_EPHEMERAL@.len() == 9);
    assert(crate::storage::STORAGE_TYPE_PERSISTENCE@.len() == 11);
}

/// Completeness: whatever the user stated, the defaulted state has no gap left. The image,
/// the tuning parameters, the probes, the ports and the placement policy are present and
/// filled, the ensemble size is not zero, and exactly one of persistent and ephemeral
/// storage is present, the one that the storage type names.
pub proof fn lemma_defaulted_is_complete(spec: ZookeeperClusterSpecView, name: Seq<char>)
    ensures
        spec.defaulted(name).is_complete(),
        spec.defaulted(name).persistence is Some <==> spec.defaulted(name).ephemeral is None,
        spec.defaulted(name).persistence is Some <==> spec.defaulted(name).storagetype == Some(
            crate::storage::STORAGE_TYPE_PERSISTENCE@,
        ),
        spec.defaulted(name).ephemeral is Some <==> spec.defaulted(name).storagetype == Some(
            crate::storage::STORAGE_TYPE_EPHEMERAL@,
        ),
{
    lemma_storage_types_differ();
    lemma_default_volume_size_is_not_zero();
    lemma_merged_ports_are_canonical(
        match spec.ports {
            Some(ports) => ports,
            None => Seq::empty(),
        },
    );
}

/// A state without gaps is left as it is by the defaulting rules, whatever the cluster's
/// name.
pub proof fn lemma_complete_is_unchanged(spec: ZookeeperClusterSpecView, name: Seq<char>)
    requires
        spec.is_complete(),
    ensures
        spec.defaulted(name) == spec,
{
    lemma_storage_types_differ();
    lemma_canonical_ports_are_fixed(spec.ports->0);
    let d = spec.defaulted(name);
    assert(d.pod->0.labels->0 =~= spec.pod->0.labels->0);
    assert(d.pod == spec.pod);
    assert(d.image == spec.image);
    assert(d.zkconfig == spec.zkconfig);
    assert(d.probes == spec.probes);
    assert(d.ports == spec.ports);
    if spec.wants_ephemeral() {
        assert(d.ephemeral == spec.ephemeral);
    } else {
        let claim = spec.persistence->0.persistent_volume_claim_spec->0;
        assert(claim.defaulted() == claim);
        assert(d.persistence == spec.persistence);
    }
}

/// The defaulting rules change a state exactly when it has a gap.
pub proof fn lemma_changed_iff_incomplete(spec: ZookeeperClusterSpecView, name: Seq<char>)
    ensures
        spec.defaulted(name) != spec <==> !spec.is_complete(),
{
    lemma_defaulted_is_complete(spec, name);
    if spec.is_complete() {
        lemma_complete_is_unchanged(spec, name);
    }
}

/// Idempotence: defaulting a defaulted state gives that state again, and finds nothing to
/// change.
pub proof fn lemma_defaulting_is_idempotent(spec: ZookeeperClusterSpecView, name: Seq<char>)
    ensures
        spec.defaulted(name).defaulted(name) == spec.defaulted(name),
        spec.defaulted(name).is_complete(),
{
    lemma_defaulted_is_complete(spec, name);
    lemma_complete_is_unchanged(spec.defaulted(name), name);
}

/// The ports that the user stated survive defaulting at their places, unchanged, and
/// every canonical port name is in the list afterwards.
pub proof fn lemma_defaulting_keeps_ports(
    spec: ZookeeperClusterSpecView,
    name: Seq<char>,
    given: Seq<ContainerPortView>,
)
    requires
        spec.ports == Some(given),
    ensures
        spec.defaulted(name).ports is Some,
        spec.defaulted(name).ports->0.len() >= given.len(),
        forall|i: int|
            0 <= i < given.len() ==> (#[trigger] spec.defaulted(name).ports->0[i]) == given[i],
        has_canonical_ports(spec.defaulted(name).ports->0),
{
    lemma_merge_keeps_given_ports(given);
    lemma_merged_ports_are_canonical(given);
}

/// A session timeout that the user did not state is derived from the tick time in force,
/// stated or defaulted: twice the tick time for the shortest and twenty times for the
/// longest, wherever 32 bits hold the product.
pub proof fn lemma_session_timeouts_follow_tick_time(config: ZookeeperConfigView)
    ensures
        config.defaulted().tick_time == Some(config.resolved_tick_time()),
        config.tick_time is Some ==> config.resolved_tick_time() == config.tick_time->0,
        config.min_session_timeout is None && 2 * config.resolved_tick_time() >= i32::MIN && 2
            * config.resolved_tick_time() <= i32::MAX ==> config.defaulted().min_session_timeout
            == Some((2 * config.resolved_tick_time()) as i32),
        config.max_session_timeout is None && 20 * config.resolved_tick_time() >= i32::MIN && 20
            * config.resolved_tick_time() <= i32::MAX ==> config.defaulted().max_session_timeout
            == Some((20 * config.resolved_tick_time()) as i32),
        config.min_session_timeout is Some ==> config.defaulted().min_session_timeout
            == config.min_session_timeout,
        config.max_session_timeout is Some ==> config.defaulted().max_session_timeout
            == config.max_session_timeout,
{
}

} // verus!
