//! Decisions of an operator that runs ZooKeeper ensembles under a container orchestrator:
//! the defaulting of a cluster's desired state, the reconciliation pass over a cluster,
//! and the bookkeeping of the cluster's node in the coordination service.

pub mod cluster;
pub mod cluster_spec;
pub mod conditions;
pub mod config;
pub mod defaulting_laws;
pub mod image;
pub mod members;
pub mod pod;
pub mod podset;
pub mod ports;
pub mod probes;
pub mod reconcile;
pub mod reconcile_laws;
pub mod status;
pub mod storage;
pub mod string_map;
pub mod text;
pub mod zk_admin;
pub mod zk_model;
pub mod zk_path;
