//! Staleness-aware snapshot cache with an adaptive background refresher and
//! content-negotiated delivery.
//!
//! The library holds the latest serialized host-metrics snapshot in a
//! multi-reader/single-writer cache, tracks when a client last asked for it,
//! decides on each background cycle whether to sample the metrics provider
//! again, and chooses whether to compress a response body for delivery.
//! Metric collection itself and the HTTP transport are outside collaborators:
//! the caller samples and serves, this crate decides and remembers.

pub mod activity;
pub mod cache;
pub mod negotiate;
pub mod scheduler;
pub mod snapshot;
pub mod sysinfo_serde;
pub mod web;

pub use activity::ActivityTracker;
pub use activity::SharedTracker;
pub use cache::SharedCache;
pub use cache::SnapshotCache;
pub use scheduler::RefreshScheduler;
