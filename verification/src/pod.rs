//! Placement policy of ensemble members and its defaults.

use vstd::prelude::*;
use crate::string_map::StringMap;
use crate::text::{opt_str_view, or_text, strs_view};

verus! {

/// Seconds a member is given to shut down when none are stated.
pub const DEFAULT_TERMINATION_GRACE_PERIOD: i64 = 30;

/// Service account that members run under when none is stated.
pub const DEFAULT_SERVICE_ACCOUNT_NAME: &'static str = "default";

/// Weight of the anti-affinity rule that spreads members over hosts.
pub const DEFAULT_ANTI_AFFINITY_WEIGHT: i32 = 20;

/// Topology key that tells hosts apart.
pub const HOSTNAME_TOPOLOGY_KEY: &'static str = "kubernetes.io/hostname";

/// Label that carries the cluster's name on each member.
pub const APP_LABEL: &'static str = "app";

/// Label that carries the release, which is the cluster's name too.
pub const RELEASE_LABEL: &'static str = "release";

/// Operator of a selector requirement that lists the accepted values.
pub const SELECTOR_OPERATOR_IN: &'static str = "In";

/// One requirement of a label selector: the label `key` stands in the relation `operator`
/// to `values`.
#[derive(Clone, Debug, PartialEq, Eq)]
pub struct LabelSelectorRequirement {
    pub key: String,
    pub operator: String,
    pub values: Vec<String>,
}

/// Mathematical value of a [`LabelSelectorRequirement`].
pub struct LabelSelectorRequirementView {
    pub key: Seq<char>,
    pub operator: Seq<char>,
    pub values: Seq<Seq<char>>,
}

impl View for LabelSelectorRequirement {
    type V = LabelSelectorRequirementView;

    open spec fn view(&self) -> LabelSelectorRequirementView {
        LabelSelectorRequirementView {
            key: self.key@,
            operator: self.operator@,
            values: strs_view(self.values@),
        }
    }
}

/// A weighted preference not to share a topology domain with the pods that the
/// requirements select.
#[derive(Clone, Debug, PartialEq, Eq)]
pub struct WeightedPodAffinityTerm {
    pub weight: i32,
    pub topology_key: String,
    pub match_expressions: Vec<LabelSelectorRequirement>,
}

/// Mathematical value of a [`WeightedPodAffinityTerm`].
pub struct WeightedPodAffinityTermView {
    pub weight: i32,
    pub topology_key: Seq<char>,
    pub match_expressions: Seq<LabelSelectorRequirementView>,
}

impl View for WeightedPodAffinityTerm {
    type V = WeightedPodAffinityTermView;

    open spec fn view(&self) -> WeightedPodAffinityTermView {
        WeightedPodAffinityTermView {
            weight: self.weight,
            topology_key: self.topology_key@,
            match_expressions: self.match_expressions@.map_values(
                |r: LabelSelectorRequirement| r@,
            ),
        }
    }
}

/// Scheduling preferences of ensemble members: the anti-affinity terms that the scheduler
/// should honour where it can.
#[derive(Clone, Debug, PartialEq, Eq)]
pub struct Affinity {
    pub preferred_anti_affinity: Vec<WeightedPodAffinityTerm>,
}

/// Mathematical value of an [`Affinity`].
pub struct AffinityView {
    pub preferred_anti_affinity: Seq<WeightedPodAffinityTermView>,
}

impl View for Affinity {
    type V = AffinityView;

    open spec fn view(&self) -> AffinityView {
        AffinityView {
            preferred_anti_affinity: self.preferred_anti_affinity@.map_values(
                |t: WeightedPodAffinityTerm| t@,
            ),
        }
    }
}

impl AffinityView {
    /// The preference that keeps the members of cluster `name` on different hosts: one
    /// term of weight 20 over the hostname topology, selecting the pods whose `app` label
    /// is the cluster's name.
    pub open spec fn spread_over_hosts(name: Seq<char>) -> AffinityView {
        AffinityView {
            preferred_anti_affinity: seq![
                WeightedPodAffinityTermView {
                    weight: DEFAULT_ANTI_AFFINITY_WEIGHT,
                    topology_key: HOSTNAME_TOPOLOGY_KEY@,
                    match_expressions: seq![
                        LabelSelectorRequirementView {
                            key: APP_LABEL@,
                            operator: SELECTOR_OPERATOR_IN@,
                            values: seq![name],
                        },
                    ],
                },
            ],
        }
    }
}

impl Affinity {
    /// The preference that keeps the members of cluster `name` on different hosts.
    pub fn spread_over_hosts(name: &str) -> (affinity: Affinity)
        ensures
            affinity@ == AffinityView::spread_over_hosts(name@),
    {
        let mut values: Vec<String> = Vec::new();
        values.push(name.to_owned());
        let requirement = LabelSelectorRequirement {
            key: APP_LABEL.to_owned(),
            operator: SELECTOR_OPERATOR_IN.to_owned(),
            values,
        };
        let mut match_expressions: Vec<LabelSelectorRequirement> = Vec::new();
        match_expressions.push(requirement);
        let term = WeightedPodAffinityTerm {
            weight: DEFAULT_ANTI_AFFINITY_WEIGHT,
            topology_key: HOSTNAME_TOPOLOGY_KEY.to_owned(),
            match_expressions,
        };
        let mut preferred_anti_affinity: Vec<WeightedPodAffinityTerm> = Vec::new();
        preferred_anti_affinity.push(term);
        let affinity = Affinity { preferred_anti_affinity };
        proof {
            let wanted = AffinityView::spread_over_hosts(name@);
            assert(requirement@.values =~= seq![name@]);
            assert(term@.match_expressions =~= wanted.preferred_anti_affinity[0].match_expressions);
            assert(affinity@.preferred_anti_affinity =~= wanted.preferred_anti_affinity);
        }
        affinity
    }
}

/// Placement policy of ensemble members.
#[derive(Clone, Debug, PartialEq, Eq)]
pub struct PodPolicy {
    pub labels: Option<StringMap>,
    pub node_selector: Option<StringMap>,
    pub affinity: Option<Affinity>,
    pub annotations: Option<StringMap>,
    pub termination_grace_period_seconds: Option<i64>,
    pub service_account_name: Option<String>,
}

/// Mathematical value of a [`PodPolicy`].
pub struct PodPolicyView {
    pub labels: Option<Map<Seq<char>, Seq<char>>>,
    pub node_selector: Option<Map<Seq<char>, Seq<char>>>,
    pub affinity: Option<AffinityView>,
    pub annotations: Option<Map<Seq<char>, Seq<char>>>,
    pub termination_grace_period_seconds: Option<i64>,
    pub service_account_name: Option<Seq<char>>,
}

/// The entries of an optional map.
pub open spec fn opt_map_view(o: Option<StringMap>) -> Option<Map<Seq<char>, Seq<char>>> {
    match o {
        Some(m) => Some(m@),
        None => None,
    }
}

impl View for PodPolicy {
    type V = PodPolicyView;

    open spec fn view(&self) -> PodPolicyView {
        PodPolicyView {
            labels: opt_map_view(self.labels),
            node_selector: opt_map_view(self.node_selector),
            affinity: match self.affinity {
                Some(a) => Some(a@),
                None => None,
            },
            annotations: opt_map_view(self.annotations),
            termination_grace_period_seconds: self.termination_grace_period_seconds,
            service_account_name: opt_str_view(self.service_account_name),
        }
    }
}

/// `labels`, with `value` stored under `key` unless the key has a value already.
pub open spec fn seeded(
    labels: Map<Seq<char>, Seq<char>>,
    key: Seq<char>,
    value: Seq<char>,
) -> Map<Seq<char>, Seq<char>> {
    if labels.contains_key(key) {
        labels
    } else {
        labels.insert(key, value)
    }
}

/// The labels of a member of cluster `name`: the given ones, with `app` and `release` set
/// to the cluster's name where the user set neither.
pub open spec fn member_labels(
    given: Option<Map<Seq<char>, Seq<char>>>,
    name: Seq<char>,
) -> Map<Seq<char>, Seq<char>> {
    let base = match given {
        Some(labels) => labels,
        None => Map::empty(),
    };
    seeded(seeded(base, APP_LABEL@, name), RELEASE_LABEL@, name)
}

impl PodPolicyView {
    /// The policy with nothing stated.
    pub open spec fn unset() -> PodPolicyView {
        PodPolicyView {
            labels: None,
            node_selector: None,
            affinity: None,
            annotations: None,
            termination_grace_period_seconds: None,
            service_account_name: None,
        }
    }

    /// The policy of cluster `name` with its gaps filled: the labels exist and hold `app`
    /// and `release`, the grace period and the service account are stated, and members
    /// prefer different hosts unless the user stated an affinity. The node selector and
    /// the annotations are kept as they are.
    pub open spec fn defaulted(self, name: Seq<char>) -> PodPolicyView {
        PodPolicyView {
            labels: Some(member_labels(self.labels, name)),
            node_selector: self.node_selector,
            affinity: match self.affinity {
                Some(_) => self.affinity,
                None => Some(AffinityView::spread_over_hosts(name)),
            },
            annotations: self.annotations,
            termination_grace_period_seconds: match self.termination_grace_period_seconds {
                Some(_) => self.termination_grace_period_seconds,
                None => Some(DEFAULT_TERMINATION_GRACE_PERIOD),
            },
            service_account_name: or_text(
                self.service_account_name,
                DEFAULT_SERVICE_ACCOUNT_NAME@,
            ),
        }
    }

    /// Whether the policy has no gap left: labels with `app` and `release`, a grace
    /// period, a service account and an affinity.
    pub open spec fn is_complete(self) -> bool {
        &&& self.labels is Some
        &&& self.labels->0.contains_key(APP_LABEL@)
        &&& self.labels->0.contains_key(RELEASE_LABEL@)
        &&& self.affinity is Some
        &&& self.termination_grace_period_seconds is Some
        &&& self.service_account_name is Some
    }
}

impl PodPolicy {
    /// A policy with nothing stated.
    pub fn new() -> (policy: PodPolicy)
        ensures
            policy@ == PodPolicyView::unset(),
    {
        PodPolicy {
            labels: None,
            node_selector: None,
            affinity: None,
            annotations: None,
            termination_grace_period_seconds: None,
            service_account_name: None,
        }
    }

    /// Fills the gaps of the policy for the cluster named `cluster_name` and says whether
    /// there was any.
    pub fn with_defaults(&mut self, cluster_name: &str) -> (changed: bool)
        ensures
            final(self)@ == old(self)@.defaulted(cluster_name@),
            changed == !old(self)@.is_complete(),
            final(self)@.is_complete(),
    {
        let mut changed = false;
        let mut labels = match self.labels.take() {
            Some(labels) => labels,
            None => {
                changed = true;
                StringMap::new()
            },
        };
        if !labels.contains_key(APP_LABEL) {
            labels.insert(APP_LABEL.to_owned(), cluster_name.to_owned());
            changed = true;
        }
        if !labels.contains_key(RELEASE_LABEL) {
            labels.insert(RELEASE_LABEL.to_owned(), cluster_name.to_owned());
            changed = true;
        }
        self.labels = Some(labels);
        if self.termination_grace_period_seconds.is_none() {
            self.termination_grace_period_seconds = Some(DEFAULT_TERMINATION_GRACE_PERIOD);
            changed = true;
        }
        if self.service_account_name.is_none() {
            self.service_account_name = Some(DEFAULT_SERVICE_ACCOUNT_NAME.to_owned());
            changed = true;
        }
        if self.affinity.is_none() {
            self.affinity = Some(Affinity::spread_over_hosts(cluster_name));
            changed = true;
        }
        changed
    }
}

} // verus!
