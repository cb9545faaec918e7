//! Bulk object eviction for a remote storage bucket.
//!
//! The crate holds the decisions of emptying and removing a bucket: which
//! listing request comes next, which deletion calls an inventory needs, how
//! many of them may run at once, and how outcomes add up. It performs no I/O.
//! A driver issues the calls that the state machines ask for and hands back
//! what the storage service answered.

pub mod enumerate;
pub mod orchestrator;
pub mod outcome;
pub mod plan;
pub mod residual;
pub mod scheduler;
pub mod target;
pub mod text;
pub mod versioning;
pub mod versions;
