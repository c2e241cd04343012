//! A verified core for a fetch-and-extract pipeline: a pool of transfer
//! workers pulls opaque identifiers from a bounded queue, fetches one remote
//! archive per identifier with a rate-limit-aware retry loop, extracts the
//! top-level text sources from the archive, and hands the results to a single
//! persistence stage that materializes one directory per unit of work.
//!
//! The decision logic — response classification, retry policy, entry
//! filtering, counter bookkeeping — is verified here; the surrounding
//! processes (network transport, the async runtime, the filesystem) drive it
//! from outside through plain values.
pub mod codec;
pub mod driver;
pub mod errors;
pub mod extract;
pub mod fetch;
pub mod paper;
pub mod pool;
pub mod progress;
pub mod worker;
