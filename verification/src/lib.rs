//! Adaptive memory control for a compute node.
//!
//! A single control loop bounds the memory used by streaming and batch work
//! against a fixed budget. Every tick it reads the current usage, decides how
//! fast the shared eviction watermark advances and which batch tasks have to
//! be cancelled, and publishes the new watermark for the caches of the node.

pub mod bitset;
pub mod budget;
pub mod cancel;
pub mod manager;
pub mod plan;
pub mod policy;
pub mod registry;
pub mod state;
pub mod stream_topn;
pub mod usage;
pub mod watermark;
