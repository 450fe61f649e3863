//! An escrow-mediated task marketplace: employers post tasks, freelancers bid,
//! an accepted bid's amount is held in custody, and completion or an arbitrated
//! dispute releases it.
//!
//! The host's services stay outside the library: the caller hands in the
//! authenticated identity and the current time, and carries out the value
//! transfers that a successful operation returns.
pub mod types;
pub mod fees;
pub mod lifecycle;
pub mod marketplace;
pub mod escrow;
pub mod disputes;
pub mod laws;

pub use types::{Bid, DataKey, Dispute, Identity, MarketError, Task, TaskStatus, Transfer};

pub use marketplace::{Config, FreelanceMarketplace, TaskRecord};
