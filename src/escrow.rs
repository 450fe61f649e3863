use vstd::prelude::*;
use crate::types::{Bid, Identity, MarketError, Task, TaskStatus, Transfer};
use crate::marketplace::FreelanceMarketplace;
use crate::fees::{fee_of, platform_cut};

verus! {

/// `k` is the first bid in `bids` made by `who`.
pub open spec fn is_first_bid_of(bids: Seq<Bid>, who: Seq<char>, k: int) -> bool {
    &&& 0 <= k < bids.len()
    &&& bids[k].freelancer@ == who
    &&& forall|j: int| 0 <= j < k ==> (#[trigger] bids[j]).freelancer@ != who
}

/// Some bid in `bids` was made by `who`.
pub open spec fn has_bid_from(bids: Seq<Bid>, who: Seq<char>) -> bool {
    exists|k: int| 0 <= k < bids.len() && (#[trigger] bids[k]).freelancer@ == who
}

/// The first bid in `bids` made by `who`, where there is one.
pub open spec fn first_bid_of(bids: Seq<Bid>, who: Seq<char>) -> Bid {
    bids[choose|k: int| is_first_bid_of(bids, who, k)]
}

/// The payments that complete a task: the escrow less the platform fee to the
/// freelancer, then the fee, where there is one, to the admin.
pub open spec fn completion_payouts(
    freelancer: Identity,
    admin: Identity,
    escrow: i128,
    fee_bps: u32,
) -> Seq<Transfer> {
    let fee = fee_of(escrow as int, fee_bps as int);
    let first = seq![Transfer::OutOfCustody { to: freelancer, amount: (escrow - fee) as i128 }];
    if fee > 0 {
        first.push(Transfer::OutOfCustody { to: admin, amount: fee as i128 })
    } else {
        first
    }
}

proof fn lemma_first_bid_unique(bids: Seq<Bid>, who: Seq<char>, k: int)
    requires
        is_first_bid_of(bids, who, k),
    ensures
        first_bid_of(bids, who) == bids[k],
        has_bid_from(bids, who),
{
    let c = choose|c: int| is_first_bid_of(bids, who, c);
    assert(is_first_bid_of(bids, who, c));
    if c < k {
        assert(bids[c].freelancer@ != who);
    } else if k < c {
        assert(bids[k].freelancer@ != who);
    }
}

/// Where the first bid by `who` stands in `bids`, if any.
fn find_first_bid(bids: &Vec<Bid>, who: &Identity) -> (r: Option<usize>)
    ensures
        r matches Some(k) ==> is_first_bid_of(bids@, who@, k as int),
        r.is_none() ==> !has_bid_from(bids@, who@),
{
    let mut k: usize = 0;
    while k < bids.len()
        invariant
            k <= bids@.len(),
            forall|j: int| 0 <= j < k ==> (#[trigger] bids@[j]).freelancer@ != who@,
        decreases bids@.len() - k,
    {
        if bids[k].freelancer.same_as(who) {
            return Some(k);
        }
        k += 1;
    }
    None
}

impl FreelanceMarketplace {
    /// The employer, who must be the signer, accepts the first bid that
    /// `freelancer` made on open task `task_id`. The bid's amount moves from the
    /// employer into custody: the one transfer returned.
    pub fn accept_bid(&mut self, signer: &Identity, task_id: u64, freelancer: Identity) -> (r:
        Result<Vec<Transfer>, MarketError>)
        requires
            old(self).wf(),
        ensures
            final(self).wf(),
            old(self).evolves_to(*final(self)),
            r == Err::<Vec<Transfer>, _>(MarketError::NotFound) <==> !old(self).has_task(task_id) || (
            old(self).task(task_id).employer@ == signer@ && old(self).task(task_id).status
                == TaskStatus::Open && !has_bid_from(old(self).rec(task_id).bids@, freelancer@)),
            r == Err::<Vec<Transfer>, _>(MarketError::Unauthorized) <==> old(self).has_task(task_id)
                && old(self).task(task_id).employer@ != signer@,
            r == Err::<Vec<Transfer>, _>(MarketError::InvalidState) <==> old(self).has_task(task_id)
                && old(self).task(task_id).employer@ == signer@ && old(self).task(task_id).status
                != TaskStatus::Open,
            r == Err::<Vec<Transfer>, _>(MarketError::TransferFailed) <==> old(self).has_task(task_id)
                && old(self).task(task_id).employer@ == signer@ && old(self).task(task_id).status
                == TaskStatus::Open && has_bid_from(old(self).rec(task_id).bids@, freelancer@) && (
            old(self).config.is_none() || first_bid_of(
                old(self).rec(task_id).bids@,
                freelancer@,
            ).amount < 0),
            r.is_ok() <==> old(self).has_task(task_id) && old(self).task(task_id).employer@
                == signer@ && old(self).task(task_id).status == TaskStatus::Open && has_bid_from(
                old(self).rec(task_id).bids@,
                freelancer@,
            ) && old(self).config.is_some() && first_bid_of(
                old(self).rec(task_id).bids@,
                freelancer@,
            ).amount >= 0,
            r.is_err() ==> *final(self) == *old(self),
            r matches Ok(transfers) ==> {
                let bid = first_bid_of(old(self).rec(task_id).bids@, freelancer@);
                &&& old(self).same_but(*final(self), task_id)
                &&& final(self).task(task_id) == (Task {
                    status: TaskStatus::Assigned,
                    assigned_freelancer: Some(freelancer),
                    escrow_amount: bid.amount,
                    ..old(self).task(task_id)
                })
                &&& final(self).rec(task_id).bids == old(self).rec(task_id).bids
                &&& final(self).rec(task_id).dispute == old(self).rec(task_id).dispute
                &&& transfers@ == seq![
                    Transfer::IntoCustody { from: old(self).task(task_id).employer, amount: bid.amount },
                ]
            },
    {
        let i = match self.index_of(task_id) {
            Some(i) => i,
            None => return Err(MarketError::NotFound),
        };
        assert(old(self).tasks@[i as int].wf_at(i + 1));
        if !self.tasks[i].task.employer.same_as(signer) {
            return Err(MarketError::Unauthorized);
        }
        if self.tasks[i].task.status != TaskStatus::Open {
            return Err(MarketError::InvalidState);
        }
        let k = match find_first_bid(&self.tasks[i].bids, &freelancer) {
            Some(k) => k,
            None => return Err(MarketError::NotFound),
        };
        proof {
            lemma_first_bid_unique(self.tasks@[i as int].bids@, freelancer@, k as int);
        }
        let amount = self.tasks[i].bids[k].amount;
        // The asset contract refuses a negative amount, and without one
        // configured nothing can be moved.
        if self.config.is_none() || amount < 0 {
            return Err(MarketError::TransferFailed);
        }
        let mut transfers: Vec<Transfer> = Vec::new();
        transfers.push(
            Transfer::IntoCustody { from: self.tasks[i].task.employer.duplicate(), amount },
        );
        self.tasks[i].task.status = TaskStatus::Assigned;
        self.tasks[i].task.assigned_freelancer = Some(freelancer);
        self.tasks[i].task.escrow_amount = amount;
        assert(self.tasks@[i as int].wf_at(i + 1));
        Ok(transfers)
    }

    /// The employer, who must be the signer, approves the work on a task under
    /// review: the task completes at `now`, and the escrow is paid out less the
    /// platform fee, which goes to the admin. A fee above the escrow, which
    /// only a fee set above the whole can give, fails as a refused transfer.
    pub fn approve_work(&mut self, signer: &Identity, task_id: u64, now: u64) -> (r: Result<
        Vec<Transfer>,
        MarketError,
    >)
        requires
            old(self).wf(),
        ensures
            final(self).wf(),
            old(self).evolves_to(*final(self)),
            r == Err::<Vec<Transfer>, _>(MarketError::NotFound) <==> !old(self).has_task(task_id),
            r == Err::<Vec<Transfer>, _>(MarketError::Unauthorized) <==> old(self).has_task(task_id)
                && old(self).task(task_id).employer@ != signer@,
            r == Err::<Vec<Transfer>, _>(MarketError::InvalidState) <==> old(self).has_task(task_id)
                && old(self).task(task_id).employer@ == signer@ && old(self).task(task_id).status
                != TaskStatus::UnderReview,
            r == Err::<Vec<Transfer>, _>(MarketError::TransferFailed) <==> old(self).has_task(task_id)
                && old(self).task(task_id).employer@ == signer@ && old(self).task(task_id).status
                == TaskStatus::UnderReview && match old(self).config {
                None => true,
                Some(c) => fee_of(old(self).task(task_id).escrow_amount as int, c.platform_fee as int)
                    > old(self).task(task_id).escrow_amount,
            },
            r.is_ok() <==> old(self).has_task(task_id) && old(self).task(task_id).employer@
                == signer@ && old(self).task(task_id).status == TaskStatus::UnderReview && match old(
                self,
            ).config {
                None => false,
                Some(c) => fee_of(old(self).task(task_id).escrow_amount as int, c.platform_fee as int)
                    <= old(self).task(task_id).escrow_amount,
            },
            r.is_err() ==> *final(self) == *old(self),
            r matches Ok(transfers) ==> {
                let t = old(self).task(task_id);
                let c = old(self).config.unwrap();
                &&& old(self).same_but(*final(self), task_id)
                &&& final(self).task(task_id) == (Task {
                    status: TaskStatus::Completed,
                    escrow_amount: 0,
                    completed_at: now,
                    ..t
                })
                &&& final(self).rec(task_id).bids == old(self).rec(task_id).bids
                &&& final(self).rec(task_id).dispute == old(self).rec(task_id).dispute
                &&& transfers@ == completion_payouts(
                    t.assigned_freelancer.unwrap(),
                    c.admin,
                    t.escrow_amount,
                    c.platform_fee,
                )
            },
    {
        let i = match self.index_of(task_id) {
            Some(i) => i,
            None => return Err(MarketError::NotFound),
        };
        assert(old(self).tasks@[i as int].wf_at(i + 1));
        if !self.tasks[i].task.employer.same_as(signer) {
            return Err(MarketError::Unauthorized);
        }
        if self.tasks[i].task.status != TaskStatus::UnderReview {
            return Err(MarketError::InvalidState);
        }
        let (fee_bps, admin) = match &self.config {
            Some(c) => (c.platform_fee, c.admin.duplicate()),
            None => return Err(MarketError::TransferFailed),
        };
        let freelancer = match &self.tasks[i].task.assigned_freelancer {
            Some(a) => a.duplicate(),
            None => return Err(MarketError::InvalidState),
        };
        // A fee above the escrow would leave a negative payment, which the
        // asset contract refuses.
        let (fee, payment) = match platform_cut(self.tasks[i].task.escrow_amount, fee_bps) {
            Some(p) => p,
            None => return Err(MarketError::TransferFailed),
        };
        let mut transfers: Vec<Transfer> = Vec::new();
        transfers.push(Transfer::OutOfCustody { to: freelancer, amount: payment });
        if fee > 0 {
            transfers.push(Transfer::OutOfCustody { to: admin, amount: fee });
        }
        self.tasks[i].task.status = TaskStatus::Completed;
        self.tasks[i].task.completed_at = now;
        self.tasks[i].task.escrow_amount = 0;
        assert(self.tasks@[i as int].wf_at(i + 1));
        Ok(transfers)
    }
}

} // verus!
