use vstd::prelude::*;

verus! {

/// An account or contract identity, held as its textual key.
#[derive(Debug, Clone)]
pub struct Identity {
    pub key: String,
}

impl View for Identity {
    type V = Seq<char>;

    open spec fn view(&self) -> Seq<char> {
        self.key@
    }
}

impl Identity {
    pub fn new(key: String) -> (r: Identity)
        ensures
            r.key == key,
    {
        Identity { key }
    }

    /// Whether both name the same identity.
    pub fn same_as(&self, other: &Identity) -> (r: bool)
        ensures
            r == (self@ == other@),
    {
        self.key == other.key
    }

    /// A copy of this identity.
    pub fn duplicate(&self) -> (r: Identity)
        ensures
            r == *self,
    {
        Identity { key: self.key.clone() }
    }
}

/// The lifecycle stage of a task.
#[derive(Debug, Clone, Copy, PartialEq, Eq, Structural)]
pub enum TaskStatus {
    Open,
    Assigned,
    InProgress,
    UnderReview,
    Completed,
    Disputed,
    Cancelled,
}

/// An offer by a freelancer to do a task; immutable once recorded.
#[derive(Debug, Clone)]
pub struct Bid {
    pub freelancer: Identity,
    pub amount: i128,
    pub proposal: String,
    /// Promised delivery time, in days.
    pub delivery_time: u64,
    pub timestamp: u64,
}

/// A posted task and its progress.
#[derive(Debug, Clone)]
pub struct Task {
    pub id: u64,
    pub employer: Identity,
    pub title: String,
    pub description: String,
    /// Advisory only: bids are not checked against it.
    pub budget: i128,
    /// Advisory only.
    pub deadline: u64,
    pub status: TaskStatus,
    pub assigned_freelancer: Option<Identity>,
    /// The amount held in custody for the task.
    pub escrow_amount: i128,
    pub created_at: u64,
    /// Meaningful once the task is completed.
    pub completed_at: u64,
}

/// A dispute raised against a task by its employer or its freelancer.
#[derive(Debug, Clone)]
pub struct Dispute {
    pub task_id: u64,
    pub raised_by: Identity,
    pub reason: String,
    pub timestamp: u64,
    pub resolved: bool,
}

/// The records a marketplace keeps, each under its own key.
#[derive(Debug, Clone, Copy, PartialEq, Eq, Structural)]
pub enum DataKey {
    TaskCounter,
    Task(u64),
    TaskFreelancer(u64),
    Bids(u64),
    Dispute(u64),
    TokenAddress,
    PlatformFee,
    Admin,
}

/// Why an operation was refused. A refused operation changes nothing.
#[derive(Debug, Clone, Copy, PartialEq, Eq, Structural)]
pub enum MarketError {
    AlreadyInitialized,
    NotFound,
    InvalidState,
    Unauthorized,
    InvalidArgument,
    TransferFailed,
}

/// A movement of value that a successful operation asks the host to make.
#[derive(Debug, Clone)]
pub enum Transfer {
    /// From an account into the marketplace's custody.
    IntoCustody { from: Identity, amount: i128 },
    /// From the marketplace's custody to an account.
    OutOfCustody { to: Identity, amount: i128 },
}

} // verus!
