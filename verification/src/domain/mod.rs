//! Domain types shared across the launcher: errors and task progress.

pub mod error;
pub mod task;

pub use error::{AppError, ErrorCategory};
pub use task::{TaskProgress, TaskState};
