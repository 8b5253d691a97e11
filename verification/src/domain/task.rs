//! Progress of long-running tasks.

use vstd::prelude::*;

verus! {

#[derive(Debug, Clone, Copy, PartialEq, Eq, Structural)]
pub enum TaskState {
    Running,
    Completed,
    Cancelled,
}

/// Progress of a long-running task.
#[derive(Debug, Clone)]
pub struct TaskProgress {
    pub state: TaskState,
    pub completed: u64,
    pub total: u64,
    pub phase: String,
}

impl TaskProgress {
    /// The completed count, never above the total.
    pub open spec fn bounded(self) -> u64 {
        if self.completed <= self.total {
            self.completed
        } else {
            self.total
        }
    }

    /// The completed count clamped to the total; progress shown to the user is
    /// this over the total, so it never exceeds 100 %.
    pub fn bounded_completed(&self) -> (r: u64)
        ensures
            r == self.bounded(),
            r <= self.total,
    {
        if self.completed <= self.total {
            self.completed
        } else {
            self.total
        }
    }
}

} // verus!
