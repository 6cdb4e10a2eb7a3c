use stellarcade::epoch_scheduler::{self, EpochScheduler};
use stellarcade::treasury_allocation::{self, RequestStatus, TreasuryAllocation};
use stellarcade::Address;

fn scheduler() -> (EpochScheduler, Address) {
    let admin = Address(1);
    let mut s = EpochScheduler::new();
    s.init(admin, 100).unwrap();
    (s, admin)
}

#[test]
fn test_current_epoch() {
    let (s, _) = scheduler();
    assert_eq!(s.current_epoch(50), 0);
    assert_eq!(s.current_epoch(150), 1);
    assert_eq!(s.current_epoch(1000), 10);
    assert_eq!(EpochScheduler::new().current_epoch(1000), 0);
}

#[test]
fn test_scheduling_and_execution() {
    let (mut s, admin) = scheduler();
    let task_id = "task1".to_string();
    let hash = [0u8; 32];

    s.schedule_task(task_id.clone(), 2, hash, 50).unwrap();
    let state = s.task_state(task_id.clone()).unwrap();
    assert_eq!(state.epoch, 2);
    assert!(!state.executed);

    let result = s.mark_executed(admin, task_id.clone(), 150);
    assert_eq!(result, Err(epoch_scheduler::Error::EpochNotReached));

    s.mark_executed(admin, task_id.clone(), 250).unwrap();
    let state = s.task_state(task_id.clone()).unwrap();
    assert!(state.executed);
    assert_eq!(state.epoch, 2);
    assert_eq!(
        s.mark_executed(admin, task_id.clone(), 250),
        Err(epoch_scheduler::Error::TaskAlreadyExecuted)
    );
    assert_eq!(
        s.schedule_task(task_id, 9, hash, 250),
        Err(epoch_scheduler::Error::TaskAlreadyExecuted)
    );
}

#[test]
fn test_invalid_schedule_epoch() {
    let (mut s, admin) = scheduler();
    let result = s.schedule_task("task1".to_string(), 4, [0u8; 32], 550);
    assert_eq!(result, Err(epoch_scheduler::Error::InvalidScheduleEpoch));
    assert!(s.task_state("task1".to_string()).is_none());
    assert_eq!(
        s.mark_executed(admin, "task1".to_string(), 550),
        Err(epoch_scheduler::Error::TaskNotFound)
    );
    assert_eq!(
        s.mark_executed(Address(5), "task1".to_string(), 550),
        Err(epoch_scheduler::Error::NotAuthorized)
    );
    assert_eq!(s.init(admin, 10), Err(epoch_scheduler::Error::AlreadyInitialized));
    assert_eq!(EpochScheduler::new().init(admin, 0), Err(epoch_scheduler::Error::InvalidEpochDuration));
}

fn treasury() -> (TreasuryAllocation, Address) {
    let admin = Address(1);
    let mut t = TreasuryAllocation::new();
    t.init(admin, Address(2)).unwrap();
    (t, admin)
}

#[test]
fn test_init_sets_correct_state() {
    let (mut t, admin) = treasury();
    let result = t.init(admin, Address(3));
    assert!(result.is_err());
    assert_eq!(result, Err(treasury_allocation::Error::AlreadyInitialized));
}

#[test]
fn test_create_budget() {
    let (mut t, admin) = treasury();
    t.create_budget(admin, "ops".to_string(), 10_000, 30).unwrap();
    let budget = t.budget_state("ops".to_string()).unwrap();
    assert_eq!(budget.limit, 10_000);
    assert_eq!(budget.period, 30);
    assert_eq!(budget.allocated, 0);
    assert_eq!(
        t.create_budget(admin, "ops".to_string(), 0, 30),
        Err(treasury_allocation::Error::InvalidAmount)
    );
}

#[test]
fn test_request_allocation() {
    let (mut t, _) = treasury();
    let requester = Address(7);
    let req_id = t.request_allocation(requester, "ops".to_string(), 500, "server".to_string()).unwrap();
    assert_eq!(req_id, 1);
    let req = t.request_state(req_id).unwrap();
    assert_eq!(req.amount, 500);
    assert_eq!(req.status, RequestStatus::Pending);
}

#[test]
fn test_approve_allocation_success() {
    let (mut t, admin) = treasury();
    t.create_budget(admin, "ops".to_string(), 1000, 30).unwrap();
    let req_id = t.request_allocation(Address(7), "ops".to_string(), 500, "server".to_string()).unwrap();
    t.approve_allocation(admin, req_id).unwrap();
    let req = t.request_state(req_id).unwrap();
    assert_eq!(req.status, RequestStatus::Approved);
    let budget = t.budget_state("ops".to_string()).unwrap();
    assert_eq!(budget.allocated, 500);
    // a new limit keeps what was allocated
    t.create_budget(admin, "ops".to_string(), 2000, 60).unwrap();
    assert_eq!(t.budget_state("ops".to_string()).unwrap().allocated, 500);
}

#[test]
fn test_approve_allocation_exceeds_budget() {
    let (mut t, admin) = treasury();
    t.create_budget(admin, "ops".to_string(), 1000, 30).unwrap();
    let req_id = t.request_allocation(Address(7), "ops".to_string(), 1500, "server".to_string()).unwrap();
    let res = t.approve_allocation(admin, req_id);
    assert!(res.is_err());
    assert_eq!(res, Err(treasury_allocation::Error::BudgetExceeded));
    assert_eq!(t.request_state(req_id).unwrap().status, RequestStatus::Pending);
}

#[test]
fn test_reject_allocation() {
    let (mut t, admin) = treasury();
    let req_id = t.request_allocation(Address(7), "ops".to_string(), 500, "server".to_string()).unwrap();
    t.reject_allocation(admin, req_id).unwrap();
    let req = t.request_state(req_id).unwrap();
    assert_eq!(req.status, RequestStatus::Rejected);
}

#[test]
fn test_prevent_double_processing() {
    let (mut t, admin) = treasury();
    t.create_budget(admin, "ops".to_string(), 1000, 30).unwrap();
    let req_id = t.request_allocation(Address(7), "ops".to_string(), 500, "server".to_string()).unwrap();
    t.approve_allocation(admin, req_id).unwrap();
    let res1 = t.approve_allocation(admin, req_id);
    assert!(res1.is_err());
    let res2 = t.reject_allocation(admin, req_id);
    assert!(res2.is_err());
    assert_eq!(res2, Err(treasury_allocation::Error::RequestAlreadyProcessed));
    assert_eq!(t.approve_allocation(admin, 99), Err(treasury_allocation::Error::RequestNotFound));
}

#[test]
fn unbudgeted_bucket_is_unbounded() {
    let (mut t, admin) = treasury();
    let req_id = t.request_allocation(Address(7), "misc".to_string(), 5_000, "x".to_string()).unwrap();
    t.approve_allocation(admin, req_id).unwrap();
    assert_eq!(t.budget_state("misc".to_string()).unwrap().allocated, 5_000);
    assert_eq!(
        TreasuryAllocation::new().budget_state("misc".to_string()),
        Err(treasury_allocation::Error::NotInitialized)
    );
}
