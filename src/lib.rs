//! Usage bookkeeping and fixed replies of a small temperature-conversion and
//! subscription web service.
//!
//! `counters` holds the per-operation counts and the laws of counting,
//! `stats` the lock-guarded store that concurrent request handlers share, and
//! `replies` the fixed bodies that the service answers with.

pub mod counters;
pub mod replies;
pub mod stats;
