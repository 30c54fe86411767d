//! Core logic of a screenshot activity watcher: perceptual hashing,
//! per-monitor capture deduplication, and heartbeat coalescing for an
//! ActivityWatch-style backend.

pub mod hash;
pub mod idmap;
pub mod timefmt;
pub mod config;
pub mod error;
pub mod event;
pub mod gate;
pub mod coalesce;
pub mod worker;
pub mod monitor;
pub mod client;
pub mod storage;
pub mod s3;
