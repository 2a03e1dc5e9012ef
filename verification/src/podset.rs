//! A set of pods of a given size: the desired and the observed state of the resource.

use vstd::prelude::*;

verus! {

/// The desired state of a pod set.
#[derive(Clone, Debug, PartialEq, Eq)]
pub struct PodSetSpec {
    /// Number of pods that the set is meant to have.
    pub replicas: i32,
}

/// The observed state of a pod set.
#[derive(Clone, Debug, PartialEq, Eq)]
pub struct PodSetStatus {
    /// The pods of the set, by name.
    pub pod_names: Vec<String>,
    /// Number of pods that are ready.
    pub ready_replicas: i32,
}

} // verus!
