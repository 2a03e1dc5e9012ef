//! A cluster as the orchestrator holds it: its name, its desired and its observed state.

use vstd::prelude::*;
use crate::cluster_spec::{ZookeeperClusterSpec, ZookeeperClusterSpecView};
use crate::status::{ZookeeperClusterStatus, ZookeeperClusterStatusView};

verus! {

/// A managed cluster.
#[derive(Clone, Debug, PartialEq, Eq)]
pub struct ZookeeperCluster {
    /// The name under which the orchestrator knows the cluster.
    pub name: String,
    pub spec: ZookeeperClusterSpec,
    pub status: ZookeeperClusterStatus,
}

/// Mathematical value of a [`ZookeeperCluster`].
pub struct ZookeeperClusterView {
    pub name: Seq<char>,
    pub spec: ZookeeperClusterSpecView,
    pub status: ZookeeperClusterStatusView,
}

impl View for ZookeeperCluster {
    type V = ZookeeperClusterView;

    open spec fn view(&self) -> ZookeeperClusterView {
        ZookeeperClusterView { name: self.name@, spec: self.spec@, status: self.status@ }
    }
}

impl ZookeeperClusterView {
    /// Whether the user asks for a restart of the members, one after the other.
    pub open spec fn wants_rolling_restart(self) -> bool {
        self.spec.trigger_rolling_restart == Some(true)
    }

    /// The image tag that the members are meant to run, where one is stated.
    pub open spec fn desired_tag(self) -> Option<Seq<char>> {
        match self.spec.image {
            Some(image) => image.tag,
            None => None,
        }
    }
}

impl ZookeeperCluster {
    /// Fills every gap of the cluster's desired state and says whether there was any. The
    /// name and the observed state are left as they are.
    pub fn with_defaults(&mut self) -> (changed: bool)
        ensures
            final(self)@.spec == old(self)@.spec.defaulted(old(self)@.name),
            final(self)@.spec.is_complete(),
            changed == !old(self)@.spec.is_complete(),
            final(self).name == old(self).name,
            final(self).status == old(self).status,
    {
        let changed = self.spec.with_defaults(self.name.as_str());
        changed
    }

    /// Whether the user asks for a restart of the members. A flag that is not stated asks
    /// for none.
    pub fn get_trigger_rolling_restart(&self) -> (wanted: bool)
        ensures
            wanted == self@.wants_rolling_restart(),
    {
        match self.spec.trigger_rolling_restart {
            Some(wanted) => wanted,
            None => false,
        }
    }
}

} // verus!
