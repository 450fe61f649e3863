use freelance_marketplace::fees::{dispute_split, platform_cut};
use freelance_marketplace::{DataKey, FreelanceMarketplace, Identity, MarketError, TaskStatus, Transfer};

fn id(s: &str) -> Identity {
    Identity::new(s.to_string())
}

/// Each transfer as (direction, counterparty, amount).
fn flat(ts: &[Transfer]) -> Vec<(&'static str, String, i128)> {
    ts.iter()
        .map(|t| match t {
            Transfer::IntoCustody { from, amount } => ("in", from.key.clone(), *amount),
            Transfer::OutOfCustody { to, amount } => ("out", to.key.clone(), *amount),
        })
        .collect()
}

fn market(fee: u32) -> FreelanceMarketplace {
    let mut m = FreelanceMarketplace::new();
    m.initialize(id("TOKEN"), fee, id("ADMIN")).unwrap();
    m
}

fn post(m: &mut FreelanceMarketplace, employer: &str, budget: i128) -> u64 {
    m.post_task(
        &id(employer),
        id(employer),
        "Logo".to_string(),
        "Design a logo".to_string(),
        budget,
        1_000,
        10,
    )
    .unwrap()
}

fn bid(m: &mut FreelanceMarketplace, task: u64, who: &str, amount: i128) {
    m.submit_bid(&id(who), task, id(who), amount, "proposal".to_string(), 7, 20).unwrap();
}

/// A task under review with `amount` in escrow, employer EMP, freelancer FREE.
fn under_review(m: &mut FreelanceMarketplace, amount: i128) -> u64 {
    let t = post(m, "EMP", amount);
    bid(m, t, "FREE", amount);
    m.accept_bid(&id("EMP"), t, id("FREE")).unwrap();
    m.start_work(&id("FREE"), t, &id("FREE")).unwrap();
    m.submit_work(&id("FREE"), t, &id("FREE")).unwrap();
    t
}

#[test]
fn fee_math_exact() {
    assert_eq!(platform_cut(10_000, 250), Some((250, 9_750)));
    assert_eq!(platform_cut(400, 250), Some((10, 390)));
    assert_eq!(platform_cut(399, 250), Some((9, 390)));
    assert_eq!(platform_cut(10_000, 10_000), Some((10_000, 0)));
    assert_eq!(platform_cut(10_000, 0), Some((0, 10_000)));
    assert_eq!(platform_cut(i128::MAX, 10_000), Some((i128::MAX, 0)));
    assert_eq!(
        platform_cut(i128::MAX, 1),
        Some((i128::MAX / 10_000, i128::MAX - i128::MAX / 10_000))
    );
}

#[test]
fn fee_above_whole() {
    assert_eq!(platform_cut(10_000, 10_001), None);
    assert_eq!(platform_cut(i128::MAX, u32::MAX), None);
    assert_eq!(platform_cut(5, 10_001), Some((5, 0)));
    assert_eq!(platform_cut(9_999, 10_001), Some((9_999, 0)));
    assert_eq!(platform_cut(0, u32::MAX), Some((0, 0)));
}

#[test]
fn dispute_split_exact() {
    assert_eq!(dispute_split(10_000, 30), (3_000, 7_000));
    assert_eq!(dispute_split(10_000, 0), (0, 10_000));
    assert_eq!(dispute_split(10_000, 100), (10_000, 0));
    assert_eq!(dispute_split(7, 50), (3, 4));
}

#[test]
fn approve_work_pays_fee_to_admin() {
    let mut m = market(250);
    let t = under_review(&mut m, 10_000);
    let ts = m.approve_work(&id("EMP"), t, 99).unwrap();
    assert_eq!(
        flat(&ts),
        vec![("out", "FREE".to_string(), 9_750), ("out", "ADMIN".to_string(), 250)]
    );
    let task = m.get_task(t).unwrap();
    assert_eq!(task.status, TaskStatus::Completed);
    assert_eq!(task.escrow_amount, 0);
    assert_eq!(task.completed_at, 99);
}

#[test]
fn approve_work_without_fee_pays_only_freelancer() {
    let mut m = market(0);
    let t = under_review(&mut m, 500);
    let ts = m.approve_work(&id("EMP"), t, 99).unwrap();
    assert_eq!(flat(&ts), vec![("out", "FREE".to_string(), 500)]);
}

#[test]
fn resolve_dispute_splits_escrow() {
    let mut m = market(250);
    let t = under_review(&mut m, 10_000);
    m.raise_dispute(&id("FREE"), t, id("FREE"), "unpaid".to_string(), 50).unwrap();
    assert_eq!(m.get_task(t).unwrap().status, TaskStatus::Disputed);
    let ts = m.resolve_dispute(&id("ADMIN"), t, 30, 60).unwrap();
    assert_eq!(
        flat(&ts),
        vec![("out", "EMP".to_string(), 3_000), ("out", "FREE".to_string(), 7_000)]
    );
    let task = m.get_task(t).unwrap();
    assert_eq!(task.status, TaskStatus::Completed);
    assert_eq!(task.escrow_amount, 0);
    assert!(m.get_dispute(t).unwrap().resolved);
}

#[test]
fn resolve_dispute_zero_percent_pays_freelancer_all() {
    let mut m = market(250);
    let t = under_review(&mut m, 10_000);
    m.raise_dispute(&id("EMP"), t, id("EMP"), "late".to_string(), 50).unwrap();
    let ts = m.resolve_dispute(&id("ADMIN"), t, 0, 60).unwrap();
    assert_eq!(flat(&ts), vec![("out", "FREE".to_string(), 10_000)]);
}

#[test]
fn resolve_dispute_full_refund() {
    let mut m = market(250);
    let t = under_review(&mut m, 10_000);
    m.raise_dispute(&id("EMP"), t, id("EMP"), "late".to_string(), 50).unwrap();
    let ts = m.resolve_dispute(&id("ADMIN"), t, 100, 60).unwrap();
    assert_eq!(flat(&ts), vec![("out", "EMP".to_string(), 10_000)]);
}

#[test]
fn resolve_dispute_errors() {
    let mut m = market(250);
    let t = under_review(&mut m, 10_000);
    assert_eq!(m.resolve_dispute(&id("ADMIN"), t, 30, 60).unwrap_err(), MarketError::InvalidState);
    m.raise_dispute(&id("EMP"), t, id("EMP"), "late".to_string(), 50).unwrap();
    assert_eq!(m.resolve_dispute(&id("EMP"), t, 30, 60).unwrap_err(), MarketError::Unauthorized);
    assert_eq!(m.resolve_dispute(&id("ADMIN"), t, 101, 60).unwrap_err(), MarketError::InvalidArgument);
    assert_eq!(m.resolve_dispute(&id("ADMIN"), 9, 30, 60).unwrap_err(), MarketError::NotFound);
}

#[test]
fn raise_dispute_rules() {
    let mut m = market(250);
    let t = post(&mut m, "EMP", 100);
    bid(&mut m, t, "FREE", 100);
    m.accept_bid(&id("EMP"), t, id("FREE")).unwrap();
    // Assigned is not yet disputable.
    let r = m.raise_dispute(&id("EMP"), t, id("EMP"), "x".to_string(), 1);
    assert_eq!(r.unwrap_err(), MarketError::InvalidState);
    m.start_work(&id("FREE"), t, &id("FREE")).unwrap();
    let r = m.raise_dispute(&id("OTHER"), t, id("OTHER"), "x".to_string(), 1);
    assert_eq!(r.unwrap_err(), MarketError::Unauthorized);
    let r = m.raise_dispute(&id("OTHER"), t, id("EMP"), "x".to_string(), 1);
    assert_eq!(r.unwrap_err(), MarketError::Unauthorized);
    assert!(!m.has_dispute(t));
    m.raise_dispute(&id("EMP"), t, id("EMP"), "x".to_string(), 1).unwrap();
    assert!(m.has_dispute(t));
    assert!(m.has(&DataKey::Dispute(t)));
    let d = m.get_dispute(t).unwrap();
    assert_eq!(d.raised_by.key, "EMP");
    assert!(!d.resolved);
    // A second dispute is refused.
    let r = m.raise_dispute(&id("FREE"), t, id("FREE"), "y".to_string(), 2);
    assert_eq!(r.unwrap_err(), MarketError::InvalidState);
}

#[test]
fn submit_bid_only_while_open() {
    let mut m = market(250);
    let t = post(&mut m, "EMP", 500);
    bid(&mut m, t, "A", 300);
    bid(&mut m, t, "B", 200);
    bid(&mut m, t, "A", 250);
    let bids = m.get_bids(t).unwrap();
    let seen: Vec<(String, i128)> = bids.iter().map(|b| (b.freelancer.key.clone(), b.amount)).collect();
    assert_eq!(
        seen,
        vec![("A".to_string(), 300), ("B".to_string(), 200), ("A".to_string(), 250)]
    );
    m.accept_bid(&id("EMP"), t, id("B")).unwrap();
    let r = m.submit_bid(&id("C"), t, id("C"), 100, "late".to_string(), 3, 30);
    assert_eq!(r.unwrap_err(), MarketError::InvalidState);
    assert_eq!(m.get_bids(t).unwrap().len(), 3);
}

#[test]
fn submit_bid_errors() {
    let mut m = market(250);
    let t = post(&mut m, "EMP", 500);
    let r = m.submit_bid(&id("X"), t, id("A"), 1, "p".to_string(), 3, 30);
    assert_eq!(r.unwrap_err(), MarketError::Unauthorized);
    let r = m.submit_bid(&id("A"), 42, id("A"), 1, "p".to_string(), 3, 30);
    assert_eq!(r.unwrap_err(), MarketError::NotFound);
}

#[test]
fn accept_bid_takes_first_matching_bid_into_custody() {
    let mut m = market(250);
    let other = post(&mut m, "EMP2", 900);
    bid(&mut m, other, "Z", 900);
    m.accept_bid(&id("EMP2"), other, id("Z")).unwrap();
    let t = post(&mut m, "EMP", 500);
    bid(&mut m, t, "A", 300);
    bid(&mut m, t, "A", 250);
    let ts = m.accept_bid(&id("EMP"), t, id("A")).unwrap();
    assert_eq!(flat(&ts), vec![("in", "EMP".to_string(), 300)]);
    let task = m.get_task(t).unwrap();
    assert_eq!(task.status, TaskStatus::Assigned);
    assert_eq!(task.escrow_amount, 300);
    assert_eq!(m.get_task_freelancer(t).unwrap().key, "A");
    assert_eq!(m.get_task(other).unwrap().escrow_amount, 900);
}

#[test]
fn accept_bid_errors() {
    let mut m = market(250);
    let t = post(&mut m, "EMP", 500);
    bid(&mut m, t, "A", 300);
    assert_eq!(m.accept_bid(&id("EMP"), t, id("NOBODY")).unwrap_err(), MarketError::NotFound);
    assert_eq!(m.accept_bid(&id("A"), t, id("A")).unwrap_err(), MarketError::Unauthorized);
    assert_eq!(m.accept_bid(&id("EMP"), 7, id("A")).unwrap_err(), MarketError::NotFound);
    assert_eq!(m.get_task(t).unwrap().status, TaskStatus::Open);
    bid(&mut m, t, "NEG", -5);
    assert_eq!(m.accept_bid(&id("EMP"), t, id("NEG")).unwrap_err(), MarketError::TransferFailed);
    m.accept_bid(&id("EMP"), t, id("A")).unwrap();
    assert_eq!(m.accept_bid(&id("EMP"), t, id("A")).unwrap_err(), MarketError::InvalidState);
}

#[test]
fn accept_bid_before_initialize_fails_transfer() {
    let mut m = FreelanceMarketplace::new();
    let t = post(&mut m, "EMP", 500);
    bid(&mut m, t, "A", 300);
    assert_eq!(m.accept_bid(&id("EMP"), t, id("A")).unwrap_err(), MarketError::TransferFailed);
    assert_eq!(m.get_task_freelancer(t).unwrap_err(), MarketError::NotFound);
}

#[test]
fn cancel_only_from_open() {
    let mut m = market(250);
    let t = post(&mut m, "EMP", 500);
    assert_eq!(m.cancel_task(&id("A"), t).unwrap_err(), MarketError::Unauthorized);
    m.cancel_task(&id("EMP"), t).unwrap();
    assert_eq!(m.get_task(t).unwrap().status, TaskStatus::Cancelled);
    let t2 = post(&mut m, "EMP", 500);
    bid(&mut m, t2, "A", 300);
    m.accept_bid(&id("EMP"), t2, id("A")).unwrap();
    assert_eq!(m.cancel_task(&id("EMP"), t2).unwrap_err(), MarketError::InvalidState);
    assert_eq!(m.get_task(t2).unwrap().status, TaskStatus::Assigned);
    assert_eq!(m.cancel_task(&id("EMP"), 99).unwrap_err(), MarketError::NotFound);
}

#[test]
fn work_steps_need_assigned_freelancer() {
    let mut m = market(250);
    let t = post(&mut m, "EMP", 500);
    assert_eq!(m.start_work(&id("A"), t, &id("A")).unwrap_err(), MarketError::InvalidState);
    bid(&mut m, t, "A", 300);
    m.accept_bid(&id("EMP"), t, id("A")).unwrap();
    assert_eq!(m.start_work(&id("B"), t, &id("B")).unwrap_err(), MarketError::Unauthorized);
    assert_eq!(m.start_work(&id("B"), t, &id("A")).unwrap_err(), MarketError::Unauthorized);
    assert_eq!(m.submit_work(&id("A"), t, &id("A")).unwrap_err(), MarketError::InvalidState);
    assert_eq!(m.approve_work(&id("EMP"), t, 5).unwrap_err(), MarketError::InvalidState);
    m.start_work(&id("A"), t, &id("A")).unwrap();
    assert_eq!(m.get_task(t).unwrap().status, TaskStatus::InProgress);
    assert_eq!(m.start_work(&id("A"), t, &id("A")).unwrap_err(), MarketError::InvalidState);
    m.submit_work(&id("A"), t, &id("A")).unwrap();
    assert_eq!(m.get_task(t).unwrap().status, TaskStatus::UnderReview);
    assert_eq!(m.approve_work(&id("A"), t, 5).unwrap_err(), MarketError::Unauthorized);
    assert_eq!(m.start_work(&id("A"), 77, &id("A")).unwrap_err(), MarketError::NotFound);
}

#[test]
fn end_to_end_payment() {
    let mut m = market(250);
    let t = post(&mut m, "EMP", 500);
    bid(&mut m, t, "FREE", 400);
    let ts = m.accept_bid(&id("EMP"), t, id("FREE")).unwrap();
    assert_eq!(flat(&ts), vec![("in", "EMP".to_string(), 400)]);
    m.start_work(&id("FREE"), t, &id("FREE")).unwrap();
    m.submit_work(&id("FREE"), t, &id("FREE")).unwrap();
    let ts = m.approve_work(&id("EMP"), t, 77).unwrap();
    assert_eq!(
        flat(&ts),
        vec![("out", "FREE".to_string(), 390), ("out", "ADMIN".to_string(), 10)]
    );
    let task = m.get_task(t).unwrap();
    assert_eq!(task.status, TaskStatus::Completed);
    assert_eq!(task.escrow_amount, 0);
    assert_eq!(task.budget, 500);
}

#[test]
fn platform_fee_update_bounds() {
    let mut m = market(250);
    assert_eq!(m.update_platform_fee(&id("ADMIN"), 10_001).unwrap_err(), MarketError::InvalidArgument);
    assert_eq!(m.get_platform_fee(), 250);
    m.update_platform_fee(&id("ADMIN"), 10_000).unwrap();
    assert_eq!(m.get_platform_fee(), 10_000);
    assert_eq!(m.update_platform_fee(&id("EMP"), 5).unwrap_err(), MarketError::Unauthorized);
    assert_eq!(m.get_platform_fee(), 10_000);
}

#[test]
fn initialize_once() {
    let mut m = FreelanceMarketplace::new();
    assert_eq!(m.get_platform_fee(), 0);
    assert!(!m.has(&DataKey::Admin));
    assert_eq!(m.update_platform_fee(&id("ADMIN"), 5).unwrap_err(), MarketError::Unauthorized);
    m.initialize(id("T"), 100, id("ADMIN")).unwrap();
    assert!(m.has(&DataKey::Admin));
    assert_eq!(m.initialize(id("T"), 200, id("X")).unwrap_err(), MarketError::AlreadyInitialized);
    assert_eq!(m.get_platform_fee(), 100);
    assert!(m.is_well_formed());
}

#[test]
fn initialize_takes_any_fee() {
    let mut m = FreelanceMarketplace::new();
    m.initialize(id("T"), 10_001, id("ADMIN")).unwrap();
    assert_eq!(m.get_platform_fee(), 10_001);
}

#[test]
fn approve_work_refuses_fee_above_escrow() {
    let mut m = market(10_001);
    let t = under_review(&mut m, 10_000);
    assert_eq!(m.approve_work(&id("EMP"), t, 99).unwrap_err(), MarketError::TransferFailed);
    assert_eq!(m.get_task(t).unwrap().status, TaskStatus::UnderReview);
    assert_eq!(m.get_task(t).unwrap().escrow_amount, 10_000);
    let small = under_review(&mut m, 5);
    let ts = m.approve_work(&id("EMP"), small, 99).unwrap();
    assert_eq!(flat(&ts), vec![("out", "FREE".to_string(), 0), ("out", "ADMIN".to_string(), 5)]);
}

#[test]
fn well_formedness_check() {
    let mut m = market(250);
    let t = under_review(&mut m, 100);
    assert!(m.is_well_formed());
    m.tasks[(t - 1) as usize].task.assigned_freelancer = None;
    assert!(!m.is_well_formed());
    let mut m2 = market(250);
    post(&mut m2, "EMP", 1);
    m2.tasks[0].task.id = 7;
    assert!(!m2.is_well_formed());
}

#[test]
fn task_ids_are_sequential() {
    let mut m = market(250);
    assert_eq!(m.get_task_count(), 0);
    assert_eq!(post(&mut m, "EMP", 1), 1);
    assert_eq!(post(&mut m, "EMP", 2), 2);
    assert_eq!(m.get_task_count(), 2);
    let task = m.get_task(2).unwrap();
    assert_eq!(task.id, 2);
    assert_eq!(task.status, TaskStatus::Open);
    assert_eq!(task.created_at, 10);
    assert!(task.assigned_freelancer.is_none());
    assert!(m.get_bids(2).unwrap().is_empty());
    assert_eq!(m.get_task(3).unwrap_err(), MarketError::NotFound);
    assert_eq!(m.get_bids(3).unwrap_err(), MarketError::NotFound);
    assert_eq!(m.get_dispute(1).unwrap_err(), MarketError::NotFound);
    let r = m.post_task(&id("X"), id("EMP"), "a".to_string(), "b".to_string(), 1, 1, 1);
    assert_eq!(r.unwrap_err(), MarketError::Unauthorized);
    assert!(m.has(&DataKey::Task(2)) && !m.has(&DataKey::Task(3)));
    assert!(!m.has(&DataKey::TaskFreelancer(2)));
}

#[test]
fn identities_compare_by_key() {
    assert!(id("A").same_as(&id("A")));
    assert!(!id("A").same_as(&id("B")));
    assert_eq!(id("A").duplicate().key, "A");
}
