//! Bounded, resumable downloads with integrity verification and atomic
//! publication: plan validation and the decisions a transfer takes.
//!
//! The manager is intentionally independent of Minecraft metadata. Callers turn
//! their metadata into a [`plan::DownloadPlan`].

pub mod integrity;
pub mod job;
pub mod manager;
pub mod paths;
pub mod plan;
pub mod retry;
pub mod transfer;

pub use manager::{DownloadConfig, DownloadEvent, DownloadManager, DownloadProgress, DownloadSummary};
pub use paths::validate_relative_path;
pub use plan::{Checksum, DownloadJob, DownloadPlan};

use vstd::prelude::*;

verus! {

/// The kinds of I/O failure the retry policy tells apart.
#[derive(Debug, Clone, Copy, PartialEq, Eq, Structural)]
pub enum IoFailureKind {
    Interrupted,
    TimedOut,
    UnexpectedEof,
    Other,
}

/// Failures of a download plan or of a transfer.
#[derive(Debug)]
pub enum DownloadError {
    InvalidPlan(String),
    Cancelled,
    Network(String),
    /// A non-success HTTP status, with the server's `Retry-After` in seconds.
    Http { status: u16, retry_after: Option<u64> },
    Timeout,
    Io { path: String, kind: IoFailureKind, source: std::io::Error },
    Integrity { path: String, reason: String },
    Batch(String),
    Worker(String),
}

} // verus!
