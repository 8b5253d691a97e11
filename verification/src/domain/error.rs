//! Application errors and their classification.

use vstd::prelude::*;

verus! {

/// `std::io::Error`, carried opaquely as the source of file-system failures.
#[verifier::external_type_specification]
#[verifier::external_body]
pub struct ExIoError(std::io::Error);

/// `serde_json::Error`, carried opaquely as the source of configuration failures.
#[verifier::external_type_specification]
#[verifier::external_body]
pub struct ExJsonError(serde_json::Error);

#[derive(Debug, Clone, Copy, PartialEq, Eq, Structural)]
pub enum ErrorCategory {
    Configuration,
    FileSystem,
    Internal,
}

/// Failures of the launcher's own storage.
#[derive(Debug)]
pub enum AppError {
    /// No platform data directory could be determined.
    MissingDataDirectory,
    /// A file operation failed.
    FileSystem { operation: &'static str, path: String, source: std::io::Error },
    /// A configuration document is invalid.
    InvalidConfiguration { path: String, source: serde_json::Error },
}

impl AppError {
    /// Directory and file failures are file-system errors; invalid documents
    /// are configuration errors.
    pub open spec fn category_of(&self) -> ErrorCategory {
        match self {
            AppError::MissingDataDirectory => ErrorCategory::FileSystem,
            AppError::FileSystem { .. } => ErrorCategory::FileSystem,
            AppError::InvalidConfiguration { .. } => ErrorCategory::Configuration,
        }
    }

    /// Only failed file operations are worth retrying.
    pub open spec fn is_retryable(&self) -> bool {
        self is FileSystem
    }

    /// The category of the error.
    pub fn category(&self) -> (r: ErrorCategory)
        ensures
            r == self.category_of(),
    {
        match self {
            AppError::MissingDataDirectory => ErrorCategory::FileSystem,
            AppError::FileSystem { .. } => ErrorCategory::FileSystem,
            AppError::InvalidConfiguration { .. } => ErrorCategory::Configuration,
        }
    }

    /// Whether the failed operation may succeed when tried again.
    pub fn retryable(&self) -> (r: bool)
        ensures
            r == self.is_retryable(),
    {
        match self {
            AppError::FileSystem { .. } => true,
            _ => false,
        }
    }
}

/// Every retryable error is a file-system error.
pub proof fn law_retryable_errors_are_file_system(e: AppError)
    requires
        e.is_retryable(),
    ensures
        e.category_of() == ErrorCategory::FileSystem,
{
}

} // verus!
