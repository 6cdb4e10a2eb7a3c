//! Budget buckets with spending limits, and allocation requests approved or
//! rejected against them.
use crate::Address;
use std::collections::HashMap;
use vstd::prelude::*;

verus! {

/// How long, in ledgers, budgets and requests are kept alive.
pub const PERSISTENT_BUMP_LEDGERS: u32 = 518_400;

#[derive(Clone, Copy, Debug, PartialEq, Eq, Structural)]
pub enum Error {
    AlreadyInitialized,
    NotInitialized,
    NotAuthorized,
    InvalidAmount,
    BudgetExceeded,
    RequestNotFound,
    RequestAlreadyProcessed,
    Overflow,
}

/// A bucket's limit, what was allocated from it, and its period. A limit of
/// 0 (a bucket never created) bounds nothing.
#[derive(Clone, Copy, Debug, PartialEq, Eq, Structural)]
pub struct BudgetInfo {
    pub limit: i128,
    pub allocated: i128,
    pub period: u64,
}

#[derive(Clone, Copy, Debug, PartialEq, Eq, Structural)]
pub enum RequestStatus {
    Pending,
    Approved,
    Rejected,
}

#[derive(Clone, Debug)]
pub struct RequestInfo {
    pub bucket_id: String,
    pub requester: Address,
    pub amount: i128,
    pub reason: String,
    pub status: RequestStatus,
}

/// A write of a bucket's budget, in the order the writes happened.
pub struct BudgetWrite {
    pub bucket_id: String,
    pub info: BudgetInfo,
}

pub open spec fn empty_budget() -> BudgetInfo {
    BudgetInfo { limit: 0, allocated: 0, period: 0 }
}

/// The budget last written for `bucket_id`, or the empty one.
pub open spec fn budget_in(log: Seq<BudgetWrite>, bucket_id: Seq<char>) -> BudgetInfo
    decreases log.len(),
{
    if log.len() == 0 {
        empty_budget()
    } else if log.last().bucket_id@ == bucket_id {
        log.last().info
    } else {
        budget_in(log.drop_last(), bucket_id)
    }
}

fn copy_request(r: &RequestInfo) -> (c: RequestInfo)
    ensures
        c == *r,
{
    RequestInfo {
        bucket_id: r.bucket_id.clone(),
        requester: r.requester,
        amount: r.amount,
        reason: r.reason.clone(),
        status: r.status,
    }
}

/// The treasury allocation contract.
pub struct TreasuryAllocation {
    admin: Option<Address>,
    treasury_contract: Address,
    next_request_id: u32,
    budgets: Vec<BudgetWrite>,
    requests: HashMap<u32, RequestInfo>,
}

impl TreasuryAllocation {
    pub closed spec fn admin(&self) -> Option<Address> {
        self.admin
    }

    /// The contract that pays out approved allocations.
    pub closed spec fn treasury_contract(&self) -> Address {
        self.treasury_contract
    }

    pub closed spec fn next_request_id(&self) -> u32 {
        self.next_request_id
    }

    pub closed spec fn budget(&self, bucket_id: Seq<char>) -> BudgetInfo {
        budget_in(self.budgets@, bucket_id)
    }

    pub closed spec fn requests(&self) -> Map<u32, RequestInfo> {
        self.requests@
    }

    pub open spec fn admin_check(&self, caller: Address) -> Option<Error> {
        match self.admin() {
            None => Some(Error::NotInitialized),
            Some(a) => if a != caller {
                Some(Error::NotAuthorized)
            } else {
                None
            },
        }
    }

    /// The checks of `approve_allocation` and `reject_allocation` on the request.
    pub open spec fn pending_check(&self, caller: Address, request_id: u32) -> Option<Error> {
        match self.admin_check(caller) {
            Some(e) => Some(e),
            None => if !self.requests().contains_key(request_id) {
                Some(Error::RequestNotFound)
            } else if self.requests()[request_id].status != RequestStatus::Pending {
                Some(Error::RequestAlreadyProcessed)
            } else {
                None
            },
        }
    }

    pub fn new() -> (r: Self)
        ensures
            r.admin() is None,
            forall|b: Seq<char>| r.budget(b) == empty_budget(),
            r.requests() == Map::<u32, RequestInfo>::empty(),
    {
        TreasuryAllocation {
            admin: None,
            treasury_contract: Address(0),
            next_request_id: 1,
            budgets: Vec::new(),
            requests: HashMap::new(),
        }
    }

    /// Sets the admin and the paying treasury; request ids start at 1.
    pub fn init(&mut self, admin: Address, treasury_contract: Address) -> (r: Result<(), Error>)
        ensures
            forall|b: Seq<char>| final(self).budget(b) == old(self).budget(b),
            final(self).requests() == old(self).requests(),
            old(self).admin() is Some ==> r == Err::<(), Error>(Error::AlreadyInitialized)
                && final(self).admin() == old(self).admin() && final(self).next_request_id()
                == old(self).next_request_id(),
            old(self).admin() is None ==> r is Ok && final(self).admin() == Some(admin)
                && final(self).treasury_contract() == treasury_contract
                && final(self).next_request_id() == 1,
    {
        if self.admin.is_some() {
            return Err(Error::AlreadyInitialized);
        }
        self.admin = Some(admin);
        self.treasury_contract = treasury_contract;
        self.next_request_id = 1;
        Ok(())
    }

    fn require_admin(&self, caller: Address) -> (r: Result<(), Error>)
        ensures
            r == match self.admin_check(caller) {
                Some(e) => Err(e),
                None => Ok::<(), Error>(()),
            },
    {
        match self.admin {
            None => Err(Error::NotInitialized),
            Some(a) => if a != caller {
                Err(Error::NotAuthorized)
            } else {
                Ok(())
            },
        }
    }

    fn find_budget(&self, bucket_id: &String) -> (r: BudgetInfo)
        ensures
            r == self.budget(bucket_id@),
    {
        let mut i: usize = self.budgets.len();
        assert(self.budgets@.take(i as int) == self.budgets@);
        while i > 0
            invariant
                i <= self.budgets@.len(),
                budget_in(self.budgets@, bucket_id@) == budget_in(
                    self.budgets@.take(i as int),
                    bucket_id@,
                ),
            decreases i,
        {
            let ghost pre = self.budgets@.take(i as int);
            assert(pre.drop_last() == self.budgets@.take(i - 1));
            if self.budgets[i - 1].bucket_id == *bucket_id {
                return self.budgets[i - 1].info;
            }
            i = i - 1;
        }
        BudgetInfo { limit: 0, allocated: 0, period: 0 }
    }

    fn write_budget(&mut self, bucket_id: String, info: BudgetInfo)
        ensures
            final(self).admin() == old(self).admin(),
            final(self).treasury_contract() == old(self).treasury_contract(),
            final(self).next_request_id() == old(self).next_request_id(),
            final(self).requests() == old(self).requests(),
            final(self).budgets@ == old(self).budgets@.push(BudgetWrite { bucket_id, info }),
    {
        self.budgets.push(BudgetWrite { bucket_id, info });
    }

    /// Sets a bucket's limit and period, keeping what it has allocated.
    pub fn create_budget(&mut self, admin: Address, bucket_id: String, limit: i128, period: u64) -> (r:
        Result<(), Error>)
        ensures
            final(self).admin() == old(self).admin(),
            final(self).next_request_id() == old(self).next_request_id(),
            final(self).requests() == old(self).requests(),
            r == match old(self).admin_check(admin) {
                Some(e) => Err(e),
                None => if limit <= 0 {
                    Err(Error::InvalidAmount)
                } else {
                    Ok(())
                },
            },
            forall|b: Seq<char>| #[trigger]
                final(self).budget(b) == if r is Ok && b == bucket_id@ {
                    BudgetInfo { limit, period, ..old(self).budget(b) }
                } else {
                    old(self).budget(b)
                },
    {
        match self.require_admin(admin) {
            Err(e) => return Err(e),
            Ok(()) => {},
        }
        if limit <= 0 {
            return Err(Error::InvalidAmount);
        }
        let info = self.find_budget(&bucket_id);
        self.write_budget(bucket_id, BudgetInfo { limit, period, ..info });
        assert(self.budgets@.drop_last() == old(self).budgets@);
        Ok(())
    }

    /// Files a pending request for `amount` from a bucket; returns its id.
    pub fn request_allocation(
        &mut self,
        requester: Address,
        bucket_id: String,
        amount: i128,
        reason: String,
    ) -> (r: Result<u32, Error>)
        ensures
            final(self).admin() == old(self).admin(),
            forall|b: Seq<char>| final(self).budget(b) == old(self).budget(b),
            r == if old(self).admin() is None {
                Err(Error::NotInitialized)
            } else if amount <= 0 {
                Err(Error::InvalidAmount)
            } else if old(self).next_request_id() == u32::MAX {
                Err(Error::Overflow)
            } else {
                Ok(old(self).next_request_id())
            },
            r is Ok ==> final(self).next_request_id() == old(self).next_request_id() + 1
                && final(self).requests() == old(self).requests().insert(
                old(self).next_request_id(),
                RequestInfo {
                    bucket_id,
                    requester,
                    amount,
                    reason,
                    status: RequestStatus::Pending,
                },
            ),
            r is Err ==> final(self).next_request_id() == old(self).next_request_id()
                && final(self).requests() == old(self).requests(),
    {
        broadcast use vstd::std_specs::hash::group_hash_axioms;

        if self.admin.is_none() {
            return Err(Error::NotInitialized);
        }
        if amount <= 0 {
            return Err(Error::InvalidAmount);
        }
        let request_id = self.next_request_id;
        let next = match request_id.checked_add(1) {
            Some(n) => n,
            None => return Err(Error::Overflow),
        };
        self.requests.insert(
            request_id,
            RequestInfo { bucket_id, requester, amount, reason, status: RequestStatus::Pending },
        );
        self.next_request_id = next;
        Ok(request_id)
    }

    /// Approves a pending request, charging its bucket; a bucket with a
    /// positive limit may not go over it. The treasury then pays the
    /// requester the amount.
    pub fn approve_allocation(&mut self, admin: Address, request_id: u32) -> (r: Result<(), Error>)
        ensures
            final(self).admin() == old(self).admin(),
            final(self).next_request_id() == old(self).next_request_id(),
            r == match old(self).pending_check(admin, request_id) {
                Some(e) => Err(e),
                None => {
                    let req = old(self).requests()[request_id];
                    let b = old(self).budget(req.bucket_id@);
                    if b.limit > 0 && (b.allocated + req.amount > b.limit || b.allocated
                        + req.amount < i128::MIN) {
                        Err(Error::BudgetExceeded)
                    } else if b.allocated + req.amount > i128::MAX || b.allocated + req.amount
                        < i128::MIN {
                        Err(Error::Overflow)
                    } else {
                        Ok(())
                    }
                },
            },
            r is Ok ==> final(self).requests() == old(self).requests().insert(
                request_id,
                RequestInfo { status: RequestStatus::Approved, ..old(self).requests()[request_id] },
            ),
            r is Ok ==> forall|b: Seq<char>| #[trigger]
                final(self).budget(b) == if b == old(self).requests()[request_id].bucket_id@ {
                    BudgetInfo {
                        allocated: (old(self).budget(b).allocated + old(
                            self,
                        ).requests()[request_id].amount) as i128,
                        ..old(self).budget(b)
                    }
                } else {
                    old(self).budget(b)
                },
            r is Err ==> final(self).requests() == old(self).requests() && forall|b: Seq<char>|
                #[trigger] final(self).budget(b) == old(self).budget(b),
    {
        broadcast use vstd::std_specs::hash::group_hash_axioms;

        match self.require_admin(admin) {
            Err(e) => return Err(e),
            Ok(()) => {},
        }
        let req = match self.requests.get(&request_id) {
            None => return Err(Error::RequestNotFound),
            Some(r) => copy_request(r),
        };
        if req.status != RequestStatus::Pending {
            return Err(Error::RequestAlreadyProcessed);
        }
        let budget = self.find_budget(&req.bucket_id);
        let allocated = budget.allocated.checked_add(req.amount);
        if budget.limit > 0 {
            match allocated {
                None => return Err(Error::BudgetExceeded),
                Some(a) => {
                    if a > budget.limit {
                        return Err(Error::BudgetExceeded);
                    }
                },
            }
        }
        let allocated = match allocated {
            None => return Err(Error::Overflow),
            Some(a) => a,
        };
        let bucket_id = req.bucket_id.clone();
        self.write_budget(bucket_id, BudgetInfo { allocated, ..budget });
        self.requests.insert(request_id, RequestInfo { status: RequestStatus::Approved, ..req });
        assert(self.budgets@.drop_last() == old(self).budgets@);
        Ok(())
    }

    /// Rejects a pending request.
    pub fn reject_allocation(&mut self, admin: Address, request_id: u32) -> (r: Result<(), Error>)
        ensures
            final(self).admin() == old(self).admin(),
            final(self).next_request_id() == old(self).next_request_id(),
            forall|b: Seq<char>| final(self).budget(b) == old(self).budget(b),
            r == match old(self).pending_check(admin, request_id) {
                Some(e) => Err(e),
                None => Ok::<(), Error>(()),
            },
            r is Ok ==> final(self).requests() == old(self).requests().insert(
                request_id,
                RequestInfo { status: RequestStatus::Rejected, ..old(self).requests()[request_id] },
            ),
            r is Err ==> final(self).requests() == old(self).requests(),
    {
        broadcast use vstd::std_specs::hash::group_hash_axioms;

        match self.require_admin(admin) {
            Err(e) => return Err(e),
            Ok(()) => {},
        }
        let req = match self.requests.get(&request_id) {
            None => return Err(Error::RequestNotFound),
            Some(r) => copy_request(r),
        };
        if req.status != RequestStatus::Pending {
            return Err(Error::RequestAlreadyProcessed);
        }
        self.requests.insert(request_id, RequestInfo { status: RequestStatus::Rejected, ..req });
        Ok(())
    }

    pub fn budget_state(&self, bucket_id: String) -> (r: Result<BudgetInfo, Error>)
        ensures
            r == if self.admin() is None {
                Err(Error::NotInitialized)
            } else {
                Ok(self.budget(bucket_id@))
            },
    {
        if self.admin.is_none() {
            return Err(Error::NotInitialized);
        }
        Ok(self.find_budget(&bucket_id))
    }

    pub fn request_state(&self, request_id: u32) -> (r: Result<RequestInfo, Error>)
        ensures
            r == if self.requests().contains_key(request_id) {
                Ok(self.requests()[request_id])
            } else {
                Err(Error::RequestNotFound)
            },
    {
        broadcast use vstd::std_specs::hash::group_hash_axioms;

        match self.requests.get(&request_id) {
            Some(r) => Ok(copy_request(r)),
            None => Err(Error::RequestNotFound),
        }
    }
}

} // verus!
