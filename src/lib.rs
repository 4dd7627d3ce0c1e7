//! Bootstrap of a three-role cluster from the addresses that the
//! provisioning tool reports: output decoding, role plans, the fail-fast
//! deployment driver, and the cloud authentication plan.

pub mod cloud_provider;
pub mod config;
pub mod deploy;
pub mod json;
pub mod kube_manager;
pub mod remote;
pub mod terraform;
