//! The desired state of a cluster and the rules that fill its gaps.

use vstd::prelude::*;
use crate::config::{or_flag, ZookeeperConfig, ZookeeperConfigView};
use crate::image::{ContainerImage, ContainerImageView};
use crate::pod::{PodPolicy, PodPolicyView};
use crate::ports::{
    has_canonical_ports, merge_canonical_ports, merged_ports, ports_view, ContainerPort,
    ContainerPortView,
};
use crate::probes::Probes;
use crate::storage::{
    Ephemeral, EphemeralView, Persistence, PersistenceView, STORAGE_TYPE_EPHEMERAL,
    STORAGE_TYPE_PERSISTENCE,
};
use crate::text::{opt_str_is, opt_str_view};

verus! {

/// Ensemble size of a cluster that states none.
pub const DEFAULT_REPLICAS: i32 = 3;

/// The desired state of a cluster, as its user wrote it: any part may be missing.
#[derive(Clone, Debug, PartialEq, Eq)]
pub struct ZookeeperClusterSpec {
    pub image: Option<ContainerImage>,
    /// Ensemble size; zero stands for "not stated".
    pub replicas: i32,
    pub storagetype: Option<String>,
    pub persistence: Option<Persistence>,
    pub trigger_rolling_restart: Option<bool>,
    pub zkconfig: Option<ZookeeperConfig>,
    pub probes: Option<Probes>,
    pub ports: Option<Vec<ContainerPort>>,
    pub pod: Option<PodPolicy>,
    pub ephemeral: Option<Ephemeral>,
}

/// Mathematical value of a [`ZookeeperClusterSpec`].
pub struct ZookeeperClusterSpecView {
    pub image: Option<ContainerImageView>,
    pub replicas: i32,
    pub storagetype: Option<Seq<char>>,
    pub persistence: Option<PersistenceView>,
    pub trigger_rolling_restart: Option<bool>,
    pub zkconfig: Option<ZookeeperConfigView>,
    pub probes: Option<Probes>,
    pub ports: Option<Seq<ContainerPortView>>,
    pub pod: Option<PodPolicyView>,
    pub ephemeral: Option<EphemeralView>,
}

impl View for ZookeeperClusterSpec {
    type V = ZookeeperClusterSpecView;

    open spec fn view(&self) -> ZookeeperClusterSpecView {
        ZookeeperClusterSpecView {
            image: match self.image {
                Some(image) => Some(image@),
                None => None,
            },
            replicas: self.replicas,
            storagetype: opt_str_view(self.storagetype),
            persistence: match self.persistence {
                Some(persistence) => Some(persistence@),
                None => None,
            },
            trigger_rolling_restart: self.trigger_rolling_restart,
            zkconfig: match self.zkconfig {
                Some(config) => Some(config@),
                None => None,
            },
            probes: self.probes,
            ports: match self.ports {
                Some(ports) => Some(ports_view(ports@)),
                None => None,
            },
            pod: match self.pod {
                Some(pod) => Some(pod@),
                None => None,
            },
            ephemeral: match self.ephemeral {
                Some(ephemeral) => Some(ephemeral@),
                None => None,
            },
        }
    }
}

impl ZookeeperClusterSpecView {
    /// Whether the user chose ephemeral storage. Any other storage type, or none, stands
    /// for persistent storage.
    pub open spec fn wants_ephemeral(self) -> bool {
        self.storagetype == Some(STORAGE_TYPE_EPHEMERAL@)
    }

    /// The image with its gaps filled.
    pub open spec fn defaulted_image(self) -> ContainerImageView {
        match self.image {
            Some(image) => image.defaulted(),
            None => ContainerImageView::unset().defaulted(),
        }
    }

    /// The tuning parameters with their gaps filled.
    pub open spec fn defaulted_config(self) -> ZookeeperConfigView {
        match self.zkconfig {
            Some(config) => config.defaulted(),
            None => ZookeeperConfigView::unset().defaulted(),
        }
    }

    /// The ensemble size in force: three where the user stated none.
    pub open spec fn defaulted_replicas(self) -> i32 {
        if self.replicas == 0 {
            DEFAULT_REPLICAS
        } else {
            self.replicas
        }
    }

    /// The probes with their gaps filled.
    pub open spec fn defaulted_probes(self) -> Probes {
        match self.probes {
            Some(probes) => probes.defaulted(),
            None => Probes::unset().defaulted(),
        }
    }

    /// The user's ports followed by the canonical ports that they lack.
    pub open spec fn defaulted_ports(self) -> Seq<ContainerPortView> {
        match self.ports {
            Some(ports) => merged_ports(ports),
            None => merged_ports(Seq::empty()),
        }
    }

    /// The placement policy of cluster `name` with its gaps filled.
    pub open spec fn defaulted_pod(self, name: Seq<char>) -> PodPolicyView {
        match self.pod {
            Some(pod) => pod.defaulted(name),
            None => PodPolicyView::unset().defaulted(name),
        }
    }

    /// The storage type in force: `ephemeral` if the user wrote that, else `persistence`.
    pub open spec fn defaulted_storagetype(self) -> Seq<char> {
        if self.wants_ephemeral() {
            STORAGE_TYPE_EPHEMERAL@
        } else {
            STORAGE_TYPE_PERSISTENCE@
        }
    }

    /// The persistent storage in force: none under ephemeral storage, else the user's
    /// with its gaps filled.
    pub open spec fn defaulted_persistence(self) -> Option<PersistenceView> {
        if self.wants_ephemeral() {
            None
        } else {
            Some(
                match self.persistence {
                    Some(persistence) => persistence.defaulted(),
                    None => PersistenceView::unset().defaulted(),
                },
            )
        }
    }

    /// The ephemeral storage in force: the user's with a volume source under ephemeral
    /// storage, else none.
    pub open spec fn defaulted_ephemeral(self) -> Option<EphemeralView> {
        if self.wants_ephemeral() {
            Some(
                match self.ephemeral {
                    Some(ephemeral) => ephemeral.defaulted(),
                    None => EphemeralView::unset().defaulted(),
                },
            )
        } else {
            None
        }
    }

    /// The desired state of cluster `name` with every gap filled.
    ///
    /// Each part is filled by its own rule, whatever the other parts hold. The storage type
    /// comes out as `ephemeral` if the user wrote that, and as `persistence` otherwise;
    /// the storage of the other type is dropped.
    pub open spec fn defaulted(self, name: Seq<char>) -> ZookeeperClusterSpecView {
        ZookeeperClusterSpecView {
            image: Some(self.defaulted_image()),
            replicas: self.defaulted_replicas(),
            storagetype: Some(self.defaulted_storagetype()),
            persistence: self.defaulted_persistence(),
            trigger_rolling_restart: or_flag(self.trigger_rolling_restart, false),
            zkconfig: Some(self.defaulted_config()),
            probes: Some(self.defaulted_probes()),
            ports: Some(self.defaulted_ports()),
            pod: Some(self.defaulted_pod(name)),
            ephemeral: self.defaulted_ephemeral(),
        }
    }

    /// Whether the storage is settled: the storage type is one of the two known ones, the
    /// storage of that type is stated and has no gap, and the other is absent.
    pub open spec fn storage_is_settled(self) -> bool {
        if self.wants_ephemeral() {
            &&& self.ephemeral is Some
            &&& self.ephemeral->0.is_complete()
            &&& self.persistence is None
        } else {
            &&& self.storagetype == Some(STORAGE_TYPE_PERSISTENCE@)
            &&& self.persistence is Some
            &&& self.persistence->0.is_complete()
            &&& self.ephemeral is None
        }
    }

    /// Whether the desired state has no gap left.
    pub open spec fn is_complete(self) -> bool {
        &&& self.image is Some
        &&& self.image->0.is_complete()
        &&& self.replicas != 0
        &&& self.trigger_rolling_restart is Some
        &&& self.zkconfig is Some
        &&& self.zkconfig->0.is_complete()
        &&& self.probes is Some
        &&& self.probes->0.is_complete()
        &&& self.ports is Some
        &&& has_canonical_ports(self.ports->0)
        &&& self.pod is Some
        &&& self.pod->0.is_complete()
        &&& self.storage_is_settled()
    }

    /// The desired state of which nothing is stated but an ensemble of three.
    pub open spec fn unset() -> ZookeeperClusterSpecView {
        ZookeeperClusterSpecView {
            image: None,
            replicas: DEFAULT_REPLICAS,
            storagetype: None,
            persistence: None,
            trigger_rolling_restart: None,
            zkconfig: None,
            probes: None,
            ports: None,
            pod: None,
            ephemeral: None,
        }
    }
}

/// Fills the gaps of the image, creating it if it is missing.
fn default_image(image: &mut Option<ContainerImage>) -> (changed: bool)
    ensures
        *final(image) is Some,
        final(image)->0@ == (match *old(image) {
            Some(i) => i@.defaulted(),
            None => ContainerImageView::unset().defaulted(),
        }),
        changed == !(*old(image) is Some && old(image)->0@.is_complete()),
{
    let mut value = match image.take() {
        Some(value) => value,
        None => ContainerImage::new(),
    };
    let changed = value.with_defaults();
    *image = Some(value);
    changed
}

/// Fills the gaps of the tuning parameters, creating them if they are missing.
fn default_config(config: &mut Option<ZookeeperConfig>) -> (changed: bool)
    ensures
        *final(config) is Some,
        final(config)->0@ == (match *old(config) {
            Some(c) => c@.defaulted(),
            None => ZookeeperConfigView::unset().defaulted(),
        }),
        changed == !(*old(config) is Some && old(config)->0@.is_complete()),
{
    let mut value = match config.take() {
        Some(value) => value,
        None => ZookeeperConfig::new(),
    };
    let changed = value.with_defaults();
    *config = Some(value);
    changed
}

/// Fills the gaps of the probes, creating them if they are missing.
fn default_probes(probes: &mut Option<Probes>) -> (changed: bool)
    ensures
        *final(probes) == Some(
            match *old(probes) {
                Some(p) => p.defaulted(),
                None => Probes::unset().defaulted(),
            },
        ),
        changed == !(*old(probes) is Some && old(probes)->0.is_complete()),
{
    let mut value = match probes.take() {
        Some(value) => value,
        None => Probes::new(),
    };
    let changed = value.with_defaults();
    *probes = Some(value);
    changed
}

/// Adds the canonical ports that are missing, creating the list if it is missing.
fn default_ports(ports: &mut Option<Vec<ContainerPort>>) -> (changed: bool)
    ensures
        *final(ports) is Some,
        ports_view(final(ports)->0@) == (match *old(ports) {
            Some(p) => merged_ports(ports_view(p@)),
            None => merged_ports(Seq::empty()),
        }),
        changed == !(*old(ports) is Some && has_canonical_ports(ports_view(old(ports)->0@))),
{
    let mut value = match ports.take() {
        Some(value) => value,
        None => Vec::new(),
    };
    assert(*old(ports) is None ==> ports_view(value@) =~= Seq::empty());
    let changed = merge_canonical_ports(&mut value);
    *ports = Some(value);
    changed
}

/// Fills the gaps of the placement policy, creating it if it is missing.
fn default_pod(pod: &mut Option<PodPolicy>, cluster_name: &str) -> (changed: bool)
    ensures
        *final(pod) is Some,
        final(pod)->0@ == (match *old(pod) {
            Some(p) => p@.defaulted(cluster_name@),
            None => PodPolicyView::unset().defaulted(cluster_name@),
        }),
        changed == !(*old(pod) is Some && old(pod)->0@.is_complete()),
{
    let mut value = match pod.take() {
        Some(value) => value,
        None => PodPolicy::new(),
    };
    let changed = value.with_defaults(cluster_name);
    *pod = Some(value);
    changed
}

/// Fills the gaps of the persistent storage, creating it if it is missing.
fn default_persistence(persistence: &mut Option<Persistence>) -> (changed: bool)
    ensures
        *final(persistence) is Some,
        final(persistence)->0@ == (match *old(persistence) {
            Some(p) => p@.defaulted(),
            None => PersistenceView::unset().defaulted(),
        }),
        changed == !(*old(persistence) is Some && old(persistence)->0@.is_complete()),
{
    let mut value = match persistence.take() {
        Some(value) => value,
        None => Persistence::new(),
    };
    let changed = value.with_defaults();
    *persistence = Some(value);
    changed
}

/// Gives the ephemeral storage a volume source, creating the storage if it is missing.
fn default_ephemeral(ephemeral: &mut Option<Ephemeral>) -> (changed: bool)
    ensures
        *final(ephemeral) is Some,
        final(ephemeral)->0@ == (match *old(ephemeral) {
            Some(e) => e@.defaulted(),
            None => EphemeralView::unset().defaulted(),
        }),
        changed == !(*old(ephemeral) is Some && old(ephemeral)->0@.is_complete()),
{
    let mut value = match ephemeral.take() {
        Some(value) => value,
        None => Ephemeral::new(),
    };
    let changed = value.with_defaults();
    *ephemeral = Some(value);
    changed
}

impl ZookeeperClusterSpec {
    /// A desired state of which nothing is stated but an ensemble of three.
    pub fn new() -> (spec: ZookeeperClusterSpec)
        ensures
            spec@ == ZookeeperClusterSpecView::unset(),
    {
        ZookeeperClusterSpec {
            image: None,
            replicas: DEFAULT_REPLICAS,
            storagetype: None,
            persistence: None,
            trigger_rolling_restart: None,
            zkconfig: None,
            probes: None,
            ports: None,
            pod: None,
            ephemeral: None,
        }
    }

    /// Settles the storage: under ephemeral storage the volume source is made sure of and
    /// persistent storage dropped; otherwise the storage type becomes `persistence`, its
    /// gaps are filled and ephemeral storage is dropped. Says whether anything changed.
    fn settle_storage(&mut self) -> (changed: bool)
        ensures
            final(self)@.storagetype == Some(old(self)@.defaulted_storagetype()),
            final(self)@.persistence == old(self)@.defaulted_persistence(),
            final(self)@.ephemeral == old(self)@.defaulted_ephemeral(),
            changed == !old(self)@.storage_is_settled(),
            final(self).image == old(self).image,
            final(self).replicas == old(self).replicas,
            final(self).trigger_rolling_restart == old(self).trigger_rolling_restart,
            final(self).zkconfig == old(self).zkconfig,
            final(self).probes == old(self).probes,
            final(self).ports == old(self).ports,
            final(self).pod == old(self).pod,
    {
        if opt_str_is(&self.storagetype, STORAGE_TYPE_EPHEMERAL) {
            let filled = default_ephemeral(&mut self.ephemeral);
            let dropped = self.persistence.is_some();
            self.persistence = None;
            filled || dropped
        } else {
            let named = opt_str_is(&self.storagetype, STORAGE_TYPE_PERSISTENCE);
            if !named {
                self.storagetype = Some(STORAGE_TYPE_PERSISTENCE.to_owned());
            }
            let filled = default_persistence(&mut self.persistence);
            let dropped = self.ephemeral.is_some();
            self.ephemeral = None;
            !named || filled || dropped
        }
    }

    /// Fills every gap of the desired state of the cluster named `cluster_name` and says
    /// whether there was any.
    ///
    /// What the user stated is kept: a port that is in the list stays at its place as it
    /// is, and the canonical ports that are missing follow it.
    pub fn with_defaults(&mut self, cluster_name: &str) -> (changed: bool)
        ensures
            final(self)@ == old(self)@.defaulted(cluster_name@),
            changed == !old(self)@.is_complete(),
            final(self)@.is_complete(),
            old(self)@.ports is Some ==> forall|i: int|
                0 <= i < old(self)@.ports->0.len()
                    ==> (#[trigger] final(self)@.ports->0[i]) == old(self)@.ports->0[i],
    {
        proof {
            crate::defaulting_laws::lemma_defaulted_is_complete(self@, cluster_name@);
            if self@.ports is Some {
                crate::defaulting_laws::lemma_defaulting_keeps_ports(
                    self@,
                    cluster_name@,
                    self@.ports->0,
                );
            }
        }
        let image_changed = default_image(&mut self.image);
        let config_changed = default_config(&mut self.zkconfig);
        let replicas_changed = self.replicas == 0;
        if replicas_changed {
            self.replicas = DEFAULT_REPLICAS;
        }
        let flag_changed = self.trigger_rolling_restart.is_none();
        if flag_changed {
            self.trigger_rolling_restart = Some(false);
        }
        let probes_changed = default_probes(&mut self.probes);
        let ports_changed = default_ports(&mut self.ports);
        let pod_changed = default_pod(&mut self.pod, cluster_name);
        let storage_changed = self.settle_storage();
        image_changed || config_changed || replicas_changed || flag_changed || probes_changed
            || ports_changed || pod_changed || storage_changed
    }
}

} // verus!
