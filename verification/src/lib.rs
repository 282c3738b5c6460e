//! Crash-consistent filesystem backups over copy-on-write volume snapshots.
//!
//! The library models the snapshot-backed backup transaction: the argument
//! lists of the external commands it drives, best-effort decoding of their
//! output, the classification of their failures, and the per-source state
//! machine that guarantees a snapshot acquired for a backup is always
//! released before the transaction completes.

pub mod command;
pub mod config;
pub mod run;
pub mod snapshot;
pub mod text;
pub mod transaction;
