use vstd::prelude::*;
use crate::types::TaskStatus;

verus! {

/// The edges of the task lifecycle.
pub open spec fn is_edge(from: TaskStatus, to: TaskStatus) -> bool {
    match (from, to) {
        (TaskStatus::Open, TaskStatus::Assigned) => true,
        (TaskStatus::Open, TaskStatus::Cancelled) => true,
        (TaskStatus::Assigned, TaskStatus::InProgress) => true,
        (TaskStatus::InProgress, TaskStatus::UnderReview) => true,
        (TaskStatus::InProgress, TaskStatus::Disputed) => true,
        (TaskStatus::UnderReview, TaskStatus::Disputed) => true,
        (TaskStatus::UnderReview, TaskStatus::Completed) => true,
        (TaskStatus::Disputed, TaskStatus::Completed) => true,
        _ => false,
    }
}

/// A status either stays or follows one edge.
pub open spec fn is_step(from: TaskStatus, to: TaskStatus) -> bool {
    from == to || is_edge(from, to)
}

/// The statuses in which a task has a freelancer assigned.
pub open spec fn holds_assignment(s: TaskStatus) -> bool {
    !(s == TaskStatus::Open || s == TaskStatus::Cancelled)
}

/// The statuses from which no edge leads.
pub open spec fn is_terminal(s: TaskStatus) -> bool {
    s == TaskStatus::Completed || s == TaskStatus::Cancelled
}

} // verus!
