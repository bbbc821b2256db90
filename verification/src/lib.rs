//! A strongly typed, point-in-time snapshot of CPU topology, identification,
//! frequency and cache hierarchy, assembled from a hierarchical key-value
//! system-information registry (the host's sysctl interface).
//!
//! The snapshot can be built in two ways: against the host machine through
//! the sysctl interface, or against a [`Registry`] value that holds the same
//! key-to-text mapping explicitly. The second path is fully specified: every
//! field of the result is pinned down as a function of the registry contents.

pub mod cpu;
pub mod keys;
pub mod machine;
pub mod parse;
pub mod registry;
pub mod resolve;

pub use cpu::{CPUCoreCounts, CPUFrequency, CPUIdentification, CPUInfo, CacheInfo, CacheSharing, PerformanceLevel};
pub use keys::perf_key;
pub use registry::Registry;
