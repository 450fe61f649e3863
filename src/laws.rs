use vstd::prelude::*;
use crate::types::{Bid, TaskStatus};
use crate::lifecycle::{is_step, is_terminal};
use crate::marketplace::FreelanceMarketplace;

verus! {

/// `to` lies on a path of the lifecycle graph that starts at `from`.
pub open spec fn can_reach(from: TaskStatus, to: TaskStatus) -> bool {
    match from {
        TaskStatus::Open => true,
        TaskStatus::Assigned => !(to == TaskStatus::Open || to == TaskStatus::Cancelled),
        TaskStatus::InProgress => to == TaskStatus::InProgress || to == TaskStatus::UnderReview
            || to == TaskStatus::Disputed || to == TaskStatus::Completed,
        TaskStatus::UnderReview => to == TaskStatus::UnderReview || to == TaskStatus::Disputed
            || to == TaskStatus::Completed,
        TaskStatus::Disputed => to == TaskStatus::Disputed || to == TaskStatus::Completed,
        TaskStatus::Completed => to == TaskStatus::Completed,
        TaskStatus::Cancelled => to == TaskStatus::Cancelled,
    }
}

/// Every task of `earlier` is in `later`, its status on a path of the graph
/// from where it was.
pub open spec fn history_follows_graph(earlier: FreelanceMarketplace, later: FreelanceMarketplace) -> bool {
    &&& earlier.tasks@.len() <= later.tasks@.len()
    &&& forall|i: int|
        0 <= i < earlier.tasks@.len() ==> can_reach(
            earlier.tasks@[i].task.status,
            #[trigger] later.tasks@[i].task.status,
        )
}

/// A single operation keeps every status on the lifecycle graph.
pub proof fn lemma_step_follows_graph(m0: FreelanceMarketplace, m1: FreelanceMarketplace)
    requires
        m0.evolves_to(m1),
    ensures
        history_follows_graph(m0, m1),
{
    assert forall|i: int| 0 <= i < m0.tasks@.len() implies can_reach(
        m0.tasks@[i].task.status,
        #[trigger] m1.tasks@[i].task.status,
    ) by {
        assert(is_step(m0.tasks@[i].task.status, m1.tasks@[i].task.status));
    }
}

/// Any run of operations keeps every task's status on a path of the lifecycle
/// graph from the status it had at the start: a run that follows the graph,
/// extended by one more operation, still follows it.
pub proof fn lemma_run_follows_graph(
    m0: FreelanceMarketplace,
    m1: FreelanceMarketplace,
    m2: FreelanceMarketplace,
)
    requires
        history_follows_graph(m0, m1),
        m1.evolves_to(m2),
    ensures
        history_follows_graph(m0, m2),
{
    assert forall|i: int| 0 <= i < m0.tasks@.len() implies can_reach(
        m0.tasks@[i].task.status,
        #[trigger] m2.tasks@[i].task.status,
    ) by {
        assert(can_reach(m0.tasks@[i].task.status, m1.tasks@[i].task.status));
        assert(is_step(m1.tasks@[i].task.status, m2.tasks@[i].task.status));
    }
}

/// A completed or cancelled task keeps its status through any run of
/// operations, and a task that has left `Open` never returns to it.
pub proof fn lemma_no_way_back(
    m0: FreelanceMarketplace,
    m1: FreelanceMarketplace,
    i: int,
)
    requires
        history_follows_graph(m0, m1),
        0 <= i < m0.tasks@.len(),
    ensures
        is_terminal(m0.tasks@[i].task.status) ==> m1.tasks@[i].task.status
            == m0.tasks@[i].task.status,
        m0.tasks@[i].task.status != TaskStatus::Open ==> m1.tasks@[i].task.status
            != TaskStatus::Open,
{
    assert(can_reach(m0.tasks@[i].task.status, m1.tasks@[i].task.status));
}

/// In a well-formed marketplace, every task that holds funds in escrow has a
/// freelancer assigned, and no escrow is negative.
pub proof fn lemma_escrow_has_freelancer(m: FreelanceMarketplace, id: u64)
    requires
        m.wf(),
        m.has_task(id),
    ensures
        m.task(id).escrow_amount >= 0,
        m.task(id).escrow_amount > 0 ==> m.task(id).assigned_freelancer.is_some(),
{
    let i: int = id - 1;
    assert(m.tasks@[i].wf_at(i + 1));
}

/// An operation on one task leaves every other task, and so its escrow, as
/// it was.
pub proof fn lemma_other_tasks_untouched(
    m0: FreelanceMarketplace,
    m1: FreelanceMarketplace,
    id: u64,
    other: u64,
)
    requires
        m0.same_but(m1, id),
        m0.has_task(other),
        other != id,
    ensures
        m1.has_task(other),
        m1.task(other) == m0.task(other),
        m1.task(other).escrow_amount == m0.task(other).escrow_amount,
{
    assert(m1.tasks@[other - 1] == m0.tasks@[other - 1]);
}

/// The bids that a run of operations appends, one group per operation, in
/// order.
pub open spec fn appended_bids(adds: Seq<Seq<Bid>>) -> Seq<Bid>
    decreases adds.len(),
{
    if adds.len() == 0 {
        Seq::empty()
    } else {
        appended_bids(adds.drop_last()) + adds.last()
    }
}

/// Over a run of operations `states[0]`, `states[1]`, ..., in which each
/// operation appends `adds[k]` to the bids of task `id` (a successful
/// `submit_bid` on it appends its one bid, every other operation none), the
/// task ends holding the bids it started with followed by every appended
/// bid in the order of the calls.
pub proof fn lemma_bids_in_insertion_order(
    states: Seq<FreelanceMarketplace>,
    id: u64,
    adds: Seq<Seq<Bid>>,
)
    requires
        states.len() == adds.len() + 1,
        forall|k: int|
            0 <= k < adds.len() ==> (#[trigger] states[k + 1]).rec(id).bids@ == states[k].rec(
                id,
            ).bids@ + adds[k],
    ensures
        states.last().rec(id).bids@ == states[0].rec(id).bids@ + appended_bids(adds),
    decreases adds.len(),
{
    if adds.len() == 0 {
        assert(states[0].rec(id).bids@ + appended_bids(adds) =~= states[0].rec(id).bids@);
    } else {
        let n = adds.len() - 1;
        let shorter = states.drop_last();
        assert forall|k: int| 0 <= k < adds.drop_last().len() implies (
        #[trigger] shorter[k + 1]).rec(id).bids@ == shorter[k].rec(id).bids@ + adds.drop_last()[k] by {
            assert(states[k + 1] == shorter[k + 1]);
        }
        lemma_bids_in_insertion_order(shorter, id, adds.drop_last());
        assert(states[n + 1].rec(id).bids@ == states[n].rec(id).bids@ + adds[n]);
        assert(states.last().rec(id).bids@ =~= states[0].rec(id).bids@ + appended_bids(adds));
    }
}

} // verus!
