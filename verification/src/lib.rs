//! Verified core of a caching reverse proxy for `.yml` configuration
//! resources: cache-key derivation, the cache-aside pipeline decisions,
//! the namespace-wide purge bookkeeping, runtime counters, and the
//! error taxonomy. Network and file I/O live outside this crate and
//! drive these functions.

pub mod config;
pub mod digits;
pub mod errors;
pub mod keys;
pub mod pipeline;
pub mod purge;
pub mod runtime;
pub mod store_model;
