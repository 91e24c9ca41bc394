//! Keeps a DNS zone in step with the external addresses of cluster nodes:
//! extracts each node's host name and address, decides with a dedup cache
//! whether anything must be done, and runs a check-before-write protocol
//! against the authoritative name servers and the DNS provider, as state
//! machines whose actions the caller performs.

pub mod address;
pub mod cache;
pub mod errors;
pub mod linode;
pub mod reconcile;
pub mod records;
pub mod sync;
