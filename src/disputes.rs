use vstd::prelude::*;
use crate::types::{Dispute, Identity, MarketError, Task, TaskStatus, Transfer};
use crate::marketplace::FreelanceMarketplace;
use crate::fees::{dispute_split, employer_share_of};

verus! {

/// The payments that settle a dispute: the employer's share back to the
/// employer, then the rest to the freelancer, each only where it is positive.
pub open spec fn settlement_payouts(
    employer: Identity,
    freelancer: Identity,
    escrow: i128,
    employer_pct: u32,
) -> Seq<Transfer> {
    let refund = employer_share_of(escrow as int, employer_pct as int);
    let pay = escrow - refund;
    let first = if refund > 0 {
        seq![Transfer::OutOfCustody { to: employer, amount: refund as i128 }]
    } else {
        Seq::empty()
    };
    if pay > 0 {
        first.push(Transfer::OutOfCustody { to: freelancer, amount: pay as i128 })
    } else {
        first
    }
}

impl FreelanceMarketplace {
    /// The employer or the assigned freelancer (`caller`, who must be the
    /// signer) disputes a task in progress or under review.
    pub fn raise_dispute(
        &mut self,
        signer: &Identity,
        task_id: u64,
        caller: Identity,
        reason: String,
        now: u64,
    ) -> (r: Result<(), MarketError>)
        requires
            old(self).wf(),
        ensures
            final(self).wf(),
            old(self).evolves_to(*final(self)),
            r == Err::<(), _>(MarketError::Unauthorized) <==> signer@ != caller@ || (old(
                self,
            ).has_task(task_id) && !old(self).is_party(task_id, caller)),
            r == Err::<(), _>(MarketError::NotFound) <==> signer@ == caller@ && !old(
                self,
            ).has_task(task_id),
            r == Err::<(), _>(MarketError::InvalidState) <==> signer@ == caller@ && old(
                self,
            ).has_task(task_id) && old(self).is_party(task_id, caller) && !(old(self).task(
                task_id,
            ).status == TaskStatus::InProgress || old(self).task(task_id).status
                == TaskStatus::UnderReview),
            r.is_ok() <==> signer@ == caller@ && old(self).has_task(task_id) && old(self).is_party(
                task_id,
                caller,
            ) && (old(self).task(task_id).status == TaskStatus::InProgress || old(self).task(
                task_id,
            ).status == TaskStatus::UnderReview),
            r.is_err() ==> *final(self) == *old(self),
            r.is_ok() ==> {
                &&& old(self).same_but(*final(self), task_id)
                &&& final(self).task(task_id) == (Task {
                    status: TaskStatus::Disputed,
                    ..old(self).task(task_id)
                })
                &&& final(self).rec(task_id).bids == old(self).rec(task_id).bids
                &&& final(self).rec(task_id).dispute == Some(
                    Dispute { task_id, raised_by: caller, reason, timestamp: now, resolved: false },
                )
            },
    {
        if !signer.same_as(&caller) {
            return Err(MarketError::Unauthorized);
        }
        let i = match self.index_of(task_id) {
            Some(i) => i,
            None => return Err(MarketError::NotFound),
        };
        assert(old(self).tasks@[i as int].wf_at(i + 1));
        let is_employer = self.tasks[i].task.employer.same_as(&caller);
        let is_freelancer = match &self.tasks[i].task.assigned_freelancer {
            Some(a) => a.same_as(&caller),
            None => false,
        };
        if !is_employer && !is_freelancer {
            return Err(MarketError::Unauthorized);
        }
        let status = self.tasks[i].task.status;
        if status != TaskStatus::InProgress && status != TaskStatus::UnderReview {
            return Err(MarketError::InvalidState);
        }
        self.tasks[i].dispute = Some(
            Dispute { task_id, raised_by: caller, reason, timestamp: now, resolved: false },
        );
        self.tasks[i].task.status = TaskStatus::Disputed;
        assert(self.tasks@[i as int].wf_at(i + 1));
        Ok(())
    }

    /// The admin, who must be the signer, settles a disputed task: `employer_pct`
    /// percent of the escrow, rounded down, goes back to the employer and the
    /// rest to the freelancer. The task completes at `now`.
    pub fn resolve_dispute(
        &mut self,
        signer: &Identity,
        task_id: u64,
        employer_pct: u32,
        now: u64,
    ) -> (r: Result<Vec<Transfer>, MarketError>)
        requires
            old(self).wf(),
        ensures
            final(self).wf(),
            old(self).evolves_to(*final(self)),
            r == Err::<Vec<Transfer>, _>(MarketError::Unauthorized) <==> !old(self).is_admin(*signer),
            r == Err::<Vec<Transfer>, _>(MarketError::InvalidArgument) <==> old(self).is_admin(*signer)
                && employer_pct > 100,
            r == Err::<Vec<Transfer>, _>(MarketError::NotFound) <==> old(self).is_admin(*signer)
                && employer_pct <= 100 && !old(self).has_task(task_id),
            r == Err::<Vec<Transfer>, _>(MarketError::InvalidState) <==> old(self).is_admin(*signer)
                && employer_pct <= 100 && old(self).has_task(task_id) && old(self).task(
                task_id,
            ).status != TaskStatus::Disputed,
            r.is_ok() <==> old(self).is_admin(*signer) && employer_pct <= 100 && old(self).has_task(
                task_id,
            ) && old(self).task(task_id).status == TaskStatus::Disputed,
            r.is_err() ==> *final(self) == *old(self),
            r matches Ok(transfers) ==> {
                let t = old(self).task(task_id);
                let d = old(self).rec(task_id).dispute.unwrap();
                &&& old(self).same_but(*final(self), task_id)
                &&& final(self).task(task_id) == (Task {
                    status: TaskStatus::Completed,
                    escrow_amount: 0,
                    completed_at: now,
                    ..t
                })
                &&& final(self).rec(task_id).bids == old(self).rec(task_id).bids
                &&& final(self).rec(task_id).dispute == Some(Dispute { resolved: true, ..d })
                &&& transfers@ == settlement_payouts(
                    t.employer,
                    t.assigned_freelancer.unwrap(),
                    t.escrow_amount,
                    employer_pct,
                )
            },
    {
        match &self.config {
            Some(c) => {
                if !c.admin.same_as(signer) {
                    return Err(MarketError::Unauthorized);
                }
            },
            None => return Err(MarketError::Unauthorized),
        }
        if employer_pct > 100 {
            return Err(MarketError::InvalidArgument);
        }
        let i = match self.index_of(task_id) {
            Some(i) => i,
            None => return Err(MarketError::NotFound),
        };
        assert(old(self).tasks@[i as int].wf_at(i + 1));
        if self.tasks[i].task.status != TaskStatus::Disputed {
            return Err(MarketError::InvalidState);
        }
        let freelancer = match &self.tasks[i].task.assigned_freelancer {
            Some(a) => a.duplicate(),
            None => return Err(MarketError::InvalidState),
        };
        let (refund, pay) = dispute_split(self.tasks[i].task.escrow_amount, employer_pct);
        let mut transfers: Vec<Transfer> = Vec::new();
        if refund > 0 {
            transfers.push(
                Transfer::OutOfCustody { to: self.tasks[i].task.employer.duplicate(), amount: refund },
            );
        }
        if pay > 0 {
            transfers.push(Transfer::OutOfCustody { to: freelancer, amount: pay });
        }
        self.tasks[i].task.status = TaskStatus::Completed;
        self.tasks[i].task.completed_at = now;
        self.tasks[i].task.escrow_amount = 0;
        match &mut self.tasks[i].dispute {
            Some(d) => {
                d.resolved = true;
            },
            None => {},
        }
        assert(self.tasks@[i as int].wf_at(i + 1));
        Ok(transfers)
    }
}

} // verus!
