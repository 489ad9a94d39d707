//! Keeps DNS records of a remote provider in step with the host's current
//! public IP addresses.
//!
//! The crate holds the decision logic of a dynamic-DNS updater: which IP
//! lookups a reconciliation pass must issue, how the provider's
//! create-then-update-on-conflict record API is driven, and what outcome each
//! record synchronisation has. All network traffic is left to the caller: the
//! pass is a state machine that hands out one action at a time and consumes
//! the caller's observations.

pub mod cfg;
pub mod ipify;
pub mod livedns;
pub mod laws;
pub mod reconcile;
