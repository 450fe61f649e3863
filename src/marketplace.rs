use vstd::prelude::*;
use crate::types::{Bid, DataKey, Dispute, Identity, MarketError, Task, TaskStatus};
use crate::lifecycle::{holds_assignment, is_step};
use crate::fees::BPS_WHOLE;

verus! {

/// The marketplace's settings, fixed at initialization but for the fee.
#[derive(Debug, Clone)]
pub struct Config {
    /// The asset contract through which all payments are made.
    pub token: Identity,
    /// The platform fee, in basis points.
    pub platform_fee: u32,
    /// The identity that sets the fee and arbitrates disputes.
    pub admin: Identity,
}

/// Everything kept for one task: the task, its bids in order of arrival, and
/// its dispute, if one was raised.
#[derive(Debug, Clone)]
pub struct TaskRecord {
    pub task: Task,
    pub bids: Vec<Bid>,
    pub dispute: Option<Dispute>,
}

/// The marketplace's whole state. Task `id` is kept at index `id - 1`, so the
/// number of records is the last id issued.
///
/// Each operation that changes the state takes `signer`, the identity whose
/// control the invoking transaction has proved, and fails with `Unauthorized`
/// where the operation asks for another. A failed operation changes nothing.
#[derive(Debug, Clone)]
pub struct FreelanceMarketplace {
    pub config: Option<Config>,
    pub tasks: Vec<TaskRecord>,
}

impl TaskRecord {
    /// The record's own invariant, for the task with id `id`.
    pub open spec fn wf_at(&self, id: int) -> bool {
        let t = self.task;
        &&& t.id == id
        &&& t.escrow_amount >= 0
        &&& t.escrow_amount > 0 ==> t.assigned_freelancer.is_some()
        &&& t.assigned_freelancer.is_some() <==> holds_assignment(t.status)
        &&& (t.status == TaskStatus::Open || t.status == TaskStatus::Cancelled
            || t.status == TaskStatus::Completed) ==> t.escrow_amount == 0
        &&& self.dispute.is_some() ==> (t.status == TaskStatus::Disputed || t.status
            == TaskStatus::Completed)
        &&& t.status == TaskStatus::Disputed ==> (self.dispute matches Some(d) && !d.resolved)
    }
}

impl TaskRecord {
    /// Whether the record satisfies its invariant for the task with id `id`.
    pub fn is_well_formed_at(&self, id: u64) -> (r: bool)
        ensures
            r == self.wf_at(id as int),
    {
        let t = &self.task;
        let assigned = t.assigned_freelancer.is_some();
        let holds = !(t.status == TaskStatus::Open || t.status == TaskStatus::Cancelled);
        let settled = t.status == TaskStatus::Open || t.status == TaskStatus::Cancelled
            || t.status == TaskStatus::Completed;
        let dispute_ok = match &self.dispute {
            Some(d) => (t.status == TaskStatus::Disputed && !d.resolved) || t.status
                == TaskStatus::Completed,
            None => t.status != TaskStatus::Disputed,
        };
        t.id == id && t.escrow_amount >= 0 && (t.escrow_amount <= 0 || assigned) && assigned
            == holds && (!settled || t.escrow_amount == 0) && dispute_ok
    }
}

impl FreelanceMarketplace {
    /// Whether the state satisfies the marketplace's invariant, as one read
    /// back from storage must before any operation is applied to it.
    pub fn is_well_formed(&self) -> (r: bool)
        ensures
            r == self.wf(),
    {
        if self.tasks.len() as u128 > u64::MAX as u128 {
            return false;
        }
        let mut i: usize = 0;
        while i < self.tasks.len()
            invariant
                i <= self.tasks@.len(),
                self.tasks@.len() <= u64::MAX,
                forall|j: int| 0 <= j < i ==> #[trigger] self.tasks@[j].wf_at(j + 1),
            decreases self.tasks@.len() - i,
        {
            if !self.tasks[i].is_well_formed_at(i as u64 + 1) {
                return false;
            }
            i += 1;
        }
        true
    }

    pub open spec fn wf(&self) -> bool {
        &&& self.tasks@.len() <= u64::MAX
        &&& forall|i: int|
            0 <= i < self.tasks@.len() ==> #[trigger] self.tasks@[i].wf_at(i + 1)
    }

    pub open spec fn has_task(&self, id: u64) -> bool {
        1 <= id <= self.tasks@.len()
    }

    /// The record of task `id`.
    pub open spec fn rec(&self, id: u64) -> TaskRecord {
        self.tasks@[id - 1]
    }

    pub open spec fn task(&self, id: u64) -> Task {
        self.rec(id).task
    }

    pub open spec fn is_admin(&self, who: Identity) -> bool {
        self.config matches Some(c) && c.admin@ == who@
    }

    /// Task `id` exists and has a freelancer assigned other than `who`.
    pub open spec fn assigned_to_other(&self, id: u64, who: Identity) -> bool {
        self.has_task(id) && match self.task(id).assigned_freelancer {
            Some(a) => a@ != who@,
            None => false,
        }
    }

    /// `who` is the employer or the assigned freelancer of task `id`.
    pub open spec fn is_party(&self, id: u64, who: Identity) -> bool {
        self.task(id).employer@ == who@ || match self.task(id).assigned_freelancer {
            Some(a) => a@ == who@,
            None => false,
        }
    }

    /// Task `id` exists and `who` is its assigned freelancer.
    pub open spec fn assigned_to(&self, id: u64, who: Identity) -> bool {
        self.has_task(id) && match self.task(id).assigned_freelancer {
            Some(a) => a@ == who@,
            None => false,
        }
    }

    /// `next` holds the same records as `self` but for task `id`.
    pub open spec fn same_but(&self, next: Self, id: u64) -> bool {
        &&& next.config == self.config
        &&& next.tasks@.len() == self.tasks@.len()
        &&& forall|i: int|
            0 <= i < self.tasks@.len() && i != id - 1 ==> #[trigger] next.tasks@[i]
                == self.tasks@[i]
    }

    /// Every task of `self` is in `next`, each status as it was or one edge on,
    /// and any task that `next` adds starts open.
    pub open spec fn evolves_to(&self, next: Self) -> bool {
        &&& self.tasks@.len() <= next.tasks@.len()
        &&& forall|i: int|
            0 <= i < self.tasks@.len() ==> is_step(
                self.tasks@[i].task.status,
                #[trigger] next.tasks@[i].task.status,
            )
        &&& forall|i: int|
            self.tasks@.len() <= i < next.tasks@.len() ==> (#[trigger] next.tasks@[i]).task.status
                == TaskStatus::Open
    }

    /// An empty marketplace, not yet initialized.
    pub fn new() -> (r: Self)
        ensures
            r.wf(),
            r.config.is_none(),
            r.tasks@.len() == 0,
    {
        FreelanceMarketplace { config: None, tasks: Vec::new() }
    }

    /// Sets the configuration, once.
    pub fn initialize(&mut self, token: Identity, platform_fee: u32, admin: Identity) -> (r: Result<
        (),
        MarketError,
    >)
        requires
            old(self).wf(),
        ensures
            final(self).wf(),
            old(self).config.is_some() ==> r == Err::<(), _>(MarketError::AlreadyInitialized),
            old(self).config.is_none() ==> r == Ok::<(), MarketError>(()),
            r.is_ok() ==> final(self).config == Some(Config { token, platform_fee, admin }),
            r.is_err() ==> final(self).config == old(self).config,
            final(self).tasks == old(self).tasks,
    {
        if self.config.is_some() {
            return Err(MarketError::AlreadyInitialized);
        }
        self.config = Some(Config { token, platform_fee, admin });
        Ok(())
    }

    /// Whether a record is kept under `key`.
    pub fn has(&self, key: &DataKey) -> (r: bool)
        ensures
            r == match *key {
                DataKey::TaskCounter => true,
                DataKey::Task(id) => self.has_task(id),
                DataKey::Bids(id) => self.has_task(id),
                DataKey::TaskFreelancer(id) => self.has_task(id)
                    && self.task(id).assigned_freelancer.is_some(),
                DataKey::Dispute(id) => self.has_task(id) && self.rec(id).dispute.is_some(),
                DataKey::TokenAddress | DataKey::PlatformFee | DataKey::Admin => self.config.is_some(),
            },
    {
        match *key {
            DataKey::TaskCounter => true,
            DataKey::Task(id) | DataKey::Bids(id) => self.index_of(id).is_some(),
            DataKey::TaskFreelancer(id) => match self.index_of(id) {
                Some(i) => self.tasks[i].task.assigned_freelancer.is_some(),
                None => false,
            },
            DataKey::Dispute(id) => match self.index_of(id) {
                Some(i) => self.tasks[i].dispute.is_some(),
                None => false,
            },
            DataKey::TokenAddress | DataKey::PlatformFee | DataKey::Admin => self.config.is_some(),
        }
    }

    /// Where task `id` is kept, if it exists.
    pub(crate) fn index_of(&self, id: u64) -> (r: Option<usize>)
        ensures
            r.is_some() == self.has_task(id),
            r matches Some(i) ==> i == id - 1,
    {
        if id >= 1 && id - 1 < self.tasks.len() as u64 {
            Some((id - 1) as usize)
        } else {
            None
        }
    }

    /// Posts a new open task for `employer`, who must be the signer, and
    /// returns its id.
    pub fn post_task(
        &mut self,
        signer: &Identity,
        employer: Identity,
        title: String,
        description: String,
        budget: i128,
        deadline: u64,
        now: u64,
    ) -> (r: Result<u64, MarketError>)
        requires
            old(self).wf(),
            old(self).tasks@.len() < u64::MAX,
        ensures
            final(self).wf(),
            old(self).evolves_to(*final(self)),
            signer@ != employer@ <==> r == Err::<u64, _>(MarketError::Unauthorized),
            r.is_ok() <==> signer@ == employer@,
            r.is_err() ==> *final(self) == *old(self),
            r matches Ok(id) ==> {
                &&& id == old(self).tasks@.len() + 1
                &&& final(self).config == old(self).config
                &&& final(self).tasks@.len() == id
                &&& final(self).tasks@.subrange(0, id - 1) == old(self).tasks@
                &&& final(self).task(id) == (Task {
                    id,
                    employer,
                    title,
                    description,
                    budget,
                    deadline,
                    status: TaskStatus::Open,
                    assigned_freelancer: None,
                    escrow_amount: 0,
                    created_at: now,
                    completed_at: 0,
                })
                &&& final(self).rec(id).bids@.len() == 0
                &&& final(self).rec(id).dispute.is_none()
            },
    {
        if !signer.same_as(&employer) {
            return Err(MarketError::Unauthorized);
        }
        let id: u64 = self.tasks.len() as u64 + 1;
        let task = Task {
            id,
            employer,
            title,
            description,
            budget,
            deadline,
            status: TaskStatus::Open,
            assigned_freelancer: None,
            escrow_amount: 0,
            created_at: now,
            completed_at: 0,
        };
        self.tasks.push(TaskRecord { task, bids: Vec::new(), dispute: None });
        assert(self.tasks@.subrange(0, id - 1) =~= old(self).tasks@);
        Ok(id)
    }

    /// Records a bid by `freelancer`, who must be the signer, on open task
    /// `task_id`.
    pub fn submit_bid(
        &mut self,
        signer: &Identity,
        task_id: u64,
        freelancer: Identity,
        amount: i128,
        proposal: String,
        delivery_time: u64,
        now: u64,
    ) -> (r: Result<(), MarketError>)
        requires
            old(self).wf(),
        ensures
            final(self).wf(),
            old(self).evolves_to(*final(self)),
            r == Err::<(), _>(MarketError::Unauthorized) <==> signer@ != freelancer@,
            r == Err::<(), _>(MarketError::NotFound) <==> signer@ == freelancer@
                && !old(self).has_task(task_id),
            r == Err::<(), _>(MarketError::InvalidState) <==> signer@ == freelancer@
                && old(self).has_task(task_id) && old(self).task(task_id).status
                != TaskStatus::Open,
            r.is_ok() <==> signer@ == freelancer@ && old(self).has_task(task_id) && old(self).task(
                task_id,
            ).status == TaskStatus::Open,
            r.is_err() ==> *final(self) == *old(self),
            r.is_ok() ==> {
                &&& old(self).same_but(*final(self), task_id)
                &&& final(self).task(task_id) == old(self).task(task_id)
                &&& final(self).rec(task_id).dispute == old(self).rec(task_id).dispute
                &&& final(self).rec(task_id).bids@ == old(self).rec(task_id).bids@.push(
                    Bid { freelancer, amount, proposal, delivery_time, timestamp: now },
                )
            },
    {
        if !signer.same_as(&freelancer) {
            return Err(MarketError::Unauthorized);
        }
        let i = match self.index_of(task_id) {
            Some(i) => i,
            None => return Err(MarketError::NotFound),
        };
        if self.tasks[i].task.status != TaskStatus::Open {
            return Err(MarketError::InvalidState);
        }
        let bid = Bid { freelancer, amount, proposal, delivery_time, timestamp: now };
        self.tasks[i].bids.push(bid);
        assert(old(self).tasks@[i as int].wf_at(i + 1));
        Ok(())
    }

    /// Moves task `task_id` from `from` to `to` on behalf of its assigned
    /// freelancer, who must be the signer.
    fn advance(
        &mut self,
        signer: &Identity,
        task_id: u64,
        freelancer: &Identity,
        from: TaskStatus,
        to: TaskStatus,
    ) -> (r: Result<(), MarketError>)
        requires
            old(self).wf(),
            holds_assignment(from),
            holds_assignment(to),
            from != TaskStatus::Disputed,
            from != TaskStatus::Completed,
            to != TaskStatus::Disputed,
            to != TaskStatus::Completed,
        ensures
            final(self).wf(),
            r == Err::<(), _>(MarketError::Unauthorized) <==> signer@ != freelancer@ || old(self).assigned_to_other(task_id, *freelancer),
            r == Err::<(), _>(MarketError::NotFound) <==> signer@ == freelancer@ && !old(
                self,
            ).has_task(task_id),
            r == Err::<(), _>(MarketError::InvalidState) <==> signer@ == freelancer@ && old(
                self,
            ).has_task(task_id) && match old(self).task(task_id).assigned_freelancer {
                None => true,
                Some(a) => a@ == freelancer@ && old(self).task(task_id).status != from,
            },
            r.is_ok() <==> signer@ == freelancer@ && old(self).assigned_to(task_id, *freelancer)
                && old(self).task(task_id).status == from,
            r.is_err() ==> *final(self) == *old(self),
            r.is_ok() ==> {
                &&& old(self).same_but(*final(self), task_id)
                &&& final(self).task(task_id) == (Task { status: to, ..old(self).task(task_id) })
                &&& final(self).rec(task_id).bids == old(self).rec(task_id).bids
                &&& final(self).rec(task_id).dispute == old(self).rec(task_id).dispute
            },
    {
        if !signer.same_as(freelancer) {
            return Err(MarketError::Unauthorized);
        }
        let i = match self.index_of(task_id) {
            Some(i) => i,
            None => return Err(MarketError::NotFound),
        };
        assert(old(self).tasks@[i as int].wf_at(i + 1));
        match &self.tasks[i].task.assigned_freelancer {
            None => return Err(MarketError::InvalidState),
            Some(a) => {
                if !a.same_as(freelancer) {
                    return Err(MarketError::Unauthorized);
                }
            },
        }
        if self.tasks[i].task.status != from {
            return Err(MarketError::InvalidState);
        }
        self.tasks[i].task.status = to;
        assert(self.tasks@[i as int].wf_at(i + 1));
        Ok(())
    }

    /// The assigned freelancer, who must be the signer, starts work on an
    /// assigned task.
    pub fn start_work(&mut self, signer: &Identity, task_id: u64, freelancer: &Identity) -> (r:
        Result<(), MarketError>)
        requires
            old(self).wf(),
        ensures
            final(self).wf(),
            old(self).evolves_to(*final(self)),
            r == Err::<(), _>(MarketError::Unauthorized) <==> signer@ != freelancer@ || old(self).assigned_to_other(task_id, *freelancer),
            r == Err::<(), _>(MarketError::NotFound) <==> signer@ == freelancer@ && !old(
                self,
            ).has_task(task_id),
            r == Err::<(), _>(MarketError::InvalidState) <==> signer@ == freelancer@ && old(
                self,
            ).has_task(task_id) && match old(self).task(task_id).assigned_freelancer {
                None => true,
                Some(a) => a@ == freelancer@ && old(self).task(task_id).status
                    != TaskStatus::Assigned,
            },
            r.is_ok() <==> signer@ == freelancer@ && old(self).assigned_to(task_id, *freelancer)
                && old(self).task(task_id).status == TaskStatus::Assigned,
            r.is_err() ==> *final(self) == *old(self),
            r.is_ok() ==> {
                &&& old(self).same_but(*final(self), task_id)
                &&& final(self).task(task_id) == (Task {
                    status: TaskStatus::InProgress,
                    ..old(self).task(task_id)
                })
                &&& final(self).rec(task_id).bids == old(self).rec(task_id).bids
                &&& final(self).rec(task_id).dispute == old(self).rec(task_id).dispute
            },
    {
        self.advance(signer, task_id, freelancer, TaskStatus::Assigned, TaskStatus::InProgress)
    }

    /// The assigned freelancer, who must be the signer, hands in the work on
    /// a task in progress.
    pub fn submit_work(&mut self, signer: &Identity, task_id: u64, freelancer: &Identity) -> (r:
        Result<(), MarketError>)
        requires
            old(self).wf(),
        ensures
            final(self).wf(),
            old(self).evolves_to(*final(self)),
            r == Err::<(), _>(MarketError::Unauthorized) <==> signer@ != freelancer@ || old(self).assigned_to_other(task_id, *freelancer),
            r == Err::<(), _>(MarketError::NotFound) <==> signer@ == freelancer@ && !old(
                self,
            ).has_task(task_id),
            r == Err::<(), _>(MarketError::InvalidState) <==> signer@ == freelancer@ && old(
                self,
            ).has_task(task_id) && match old(self).task(task_id).assigned_freelancer {
                None => true,
                Some(a) => a@ == freelancer@ && old(self).task(task_id).status
                    != TaskStatus::InProgress,
            },
            r.is_ok() <==> signer@ == freelancer@ && old(self).assigned_to(task_id, *freelancer)
                && old(self).task(task_id).status == TaskStatus::InProgress,
            r.is_err() ==> *final(self) == *old(self),
            r.is_ok() ==> {
                &&& old(self).same_but(*final(self), task_id)
                &&& final(self).task(task_id) == (Task {
                    status: TaskStatus::UnderReview,
                    ..old(self).task(task_id)
                })
                &&& final(self).rec(task_id).bids == old(self).rec(task_id).bids
                &&& final(self).rec(task_id).dispute == old(self).rec(task_id).dispute
            },
    {
        self.advance(signer, task_id, freelancer, TaskStatus::InProgress, TaskStatus::UnderReview)
    }

    /// The employer, who must be the signer, withdraws an open task.
    pub fn cancel_task(&mut self, signer: &Identity, task_id: u64) -> (r: Result<(), MarketError>)
        requires
            old(self).wf(),
        ensures
            final(self).wf(),
            old(self).evolves_to(*final(self)),
            r == Err::<(), _>(MarketError::NotFound) <==> !old(self).has_task(task_id),
            r == Err::<(), _>(MarketError::Unauthorized) <==> old(self).has_task(task_id)
                && old(self).task(task_id).employer@ != signer@,
            r == Err::<(), _>(MarketError::InvalidState) <==> old(self).has_task(task_id)
                && old(self).task(task_id).employer@ == signer@ && old(self).task(task_id).status
                != TaskStatus::Open,
            r.is_ok() <==> old(self).has_task(task_id) && old(self).task(task_id).employer@
                == signer@ && old(self).task(task_id).status == TaskStatus::Open,
            r.is_err() ==> *final(self) == *old(self),
            r.is_ok() ==> {
                &&& old(self).same_but(*final(self), task_id)
                &&& final(self).task(task_id) == (Task {
                    status: TaskStatus::Cancelled,
                    ..old(self).task(task_id)
                })
                &&& final(self).rec(task_id).bids == old(self).rec(task_id).bids
                &&& final(self).rec(task_id).dispute == old(self).rec(task_id).dispute
            },
    {
        let i = match self.index_of(task_id) {
            Some(i) => i,
            None => return Err(MarketError::NotFound),
        };
        assert(old(self).tasks@[i as int].wf_at(i + 1));
        if !self.tasks[i].task.employer.same_as(signer) {
            return Err(MarketError::Unauthorized);
        }
        if self.tasks[i].task.status != TaskStatus::Open {
            return Err(MarketError::InvalidState);
        }
        self.tasks[i].task.status = TaskStatus::Cancelled;
        assert(self.tasks@[i as int].wf_at(i + 1));
        Ok(())
    }

    /// The admin, who must be the signer, sets the platform fee.
    pub fn update_platform_fee(&mut self, signer: &Identity, new_fee: u32) -> (r: Result<
        (),
        MarketError,
    >)
        requires
            old(self).wf(),
        ensures
            final(self).wf(),
            r == Err::<(), _>(MarketError::Unauthorized) <==> !old(self).is_admin(*signer),
            r == Err::<(), _>(MarketError::InvalidArgument) <==> old(self).is_admin(*signer)
                && new_fee > BPS_WHOLE,
            r.is_ok() <==> old(self).is_admin(*signer) && new_fee <= BPS_WHOLE,
            r.is_err() ==> *final(self) == *old(self),
            r.is_ok() ==> {
                &&& final(self).config == Some(
                    Config { platform_fee: new_fee, ..old(self).config.unwrap() },
                )
                &&& final(self).tasks == old(self).tasks
            },
    {
        match &mut self.config {
            Some(c) => {
                if !c.admin.same_as(signer) {
                    return Err(MarketError::Unauthorized);
                }
                if new_fee > BPS_WHOLE {
                    return Err(MarketError::InvalidArgument);
                }
                c.platform_fee = new_fee;
                Ok(())
            },
            None => Err(MarketError::Unauthorized),
        }
    }

    /// Task `task_id`.
    pub fn get_task(&self, task_id: u64) -> (r: Result<&Task, MarketError>)
        ensures
            r.is_err() <==> !self.has_task(task_id),
            r matches Err(e) ==> e == MarketError::NotFound,
            r matches Ok(t) ==> *t == self.task(task_id),
    {
        match self.index_of(task_id) {
            Some(i) => Ok(&self.tasks[i].task),
            None => Err(MarketError::NotFound),
        }
    }

    /// The freelancer assigned to task `task_id`.
    pub fn get_task_freelancer(&self, task_id: u64) -> (r: Result<&Identity, MarketError>)
        ensures
            r.is_err() <==> !self.has_task(task_id) || self.task(task_id).assigned_freelancer.is_none(),
            r matches Err(e) ==> e == MarketError::NotFound,
            r matches Ok(a) ==> self.task(task_id).assigned_freelancer == Some(*a),
    {
        match self.index_of(task_id) {
            Some(i) => match &self.tasks[i].task.assigned_freelancer {
                Some(a) => Ok(a),
                None => Err(MarketError::NotFound),
            },
            None => Err(MarketError::NotFound),
        }
    }

    /// The bids on task `task_id`, in the order they were made.
    pub fn get_bids(&self, task_id: u64) -> (r: Result<&Vec<Bid>, MarketError>)
        ensures
            r.is_err() <==> !self.has_task(task_id),
            r matches Err(e) ==> e == MarketError::NotFound,
            r matches Ok(b) ==> *b == self.rec(task_id).bids,
    {
        match self.index_of(task_id) {
            Some(i) => Ok(&self.tasks[i].bids),
            None => Err(MarketError::NotFound),
        }
    }

    /// The dispute raised on task `task_id`.
    pub fn get_dispute(&self, task_id: u64) -> (r: Result<&Dispute, MarketError>)
        ensures
            r.is_err() <==> !self.has_task(task_id) || self.rec(task_id).dispute.is_none(),
            r matches Err(e) ==> e == MarketError::NotFound,
            r matches Ok(d) ==> self.rec(task_id).dispute == Some(*d),
    {
        match self.index_of(task_id) {
            Some(i) => match &self.tasks[i].dispute {
                Some(d) => Ok(d),
                None => Err(MarketError::NotFound),
            },
            None => Err(MarketError::NotFound),
        }
    }

    /// Whether a dispute was raised on task `task_id`.
    pub fn has_dispute(&self, task_id: u64) -> (r: bool)
        ensures
            r == (self.has_task(task_id) && self.rec(task_id).dispute.is_some()),
    {
        self.has(&DataKey::Dispute(task_id))
    }

    /// The number of tasks posted, which is the last id issued.
    pub fn get_task_count(&self) -> (r: u64)
        requires
            self.wf(),
        ensures
            r == self.tasks@.len(),
    {
        self.tasks.len() as u64
    }

    /// The platform fee in basis points; zero before initialization.
    pub fn get_platform_fee(&self) -> (r: u32)
        ensures
            r == match self.config {
                Some(c) => c.platform_fee,
                None => 0,
            },
    {
        match &self.config {
            Some(c) => c.platform_fee,
            None => 0,
        }
    }
}

} // verus!
