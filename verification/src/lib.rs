//! Credential resolution and remote-synchronization reporting for a
//! git-backed repository client.
//!
//! The crate covers three concerns: obtaining authentication secrets from a
//! fixed fallback chain of sources (ssh key discovery, a secure-entry helper
//! speaking an Assuan-style line protocol, an interactive terminal prompt),
//! classifying changed remote references after a fetch, and rendering the
//! outcome as an aligned, human-scannable report.

pub mod assuan;
pub mod decimal;
pub mod export;
pub mod keys;
pub mod report;
pub mod resolver;
pub mod ui;
pub mod workspace;
