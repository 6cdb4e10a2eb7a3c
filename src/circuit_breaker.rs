//! Per-contract circuit breakers that open after a number of failures.
use crate::Address;
use std::collections::HashMap;
use vstd::prelude::*;

verus! {

#[derive(Clone, Copy, Debug, PartialEq, Eq, Structural)]
pub enum Error {
    AlreadyInitialized,
    NotInitialized,
    NotAuthorized,
    InvalidThreshold,
    BreakerNotFound,
}

#[derive(Clone, Copy, Debug, PartialEq, Eq, Structural)]
pub enum BreakerStatus {
    /// Normal operation.
    Closed,
    /// Tripped.
    Open,
}

#[derive(Clone, Copy, Debug, PartialEq, Eq, Structural)]
pub struct BreakerData {
    pub failure_count: u32,
    pub status: BreakerStatus,
    pub last_failure_ledger: u32,
}

/// The state of a breaker never touched.
pub open spec fn fresh_breaker() -> BreakerData {
    BreakerData { failure_count: 0, status: BreakerStatus::Closed, last_failure_ledger: 0 }
}

/// A breaker after a failure at ledger `ledger`: a closed breaker counts it
/// and opens once the count reaches `threshold`; an open one is unchanged.
pub open spec fn after_failure(d: BreakerData, threshold: u32, ledger: u32) -> BreakerData {
    if d.status == BreakerStatus::Closed {
        BreakerData {
            failure_count: (d.failure_count + 1) as u32,
            status: if d.failure_count + 1 >= threshold {
                BreakerStatus::Open
            } else {
                BreakerStatus::Closed
            },
            last_failure_ledger: ledger,
        }
    } else {
        d
    }
}

/// The circuit breaker contract.
pub struct ContractCircuitBreaker {
    admin: Option<Address>,
    threshold: u32,
    breakers: HashMap<u64, BreakerData>,
}

impl ContractCircuitBreaker {
    pub closed spec fn admin(&self) -> Option<Address> {
        self.admin
    }

    /// Failures after which a breaker opens.
    pub closed spec fn threshold(&self) -> u32 {
        self.threshold
    }

    /// The breakers, by contract id.
    pub closed spec fn breakers(&self) -> Map<u64, BreakerData> {
        self.breakers@
    }

    /// The state of the breaker of `contract_id`, fresh if never touched.
    pub open spec fn breaker_of(&self, contract_id: Address) -> BreakerData {
        if self.breakers().contains_key(contract_id.0) {
            self.breakers()[contract_id.0]
        } else {
            fresh_breaker()
        }
    }

    /// Breakers exist only once initialised, the threshold is positive, and a
    /// closed breaker has counted fewer failures than the threshold.
    pub open spec fn wf(&self) -> bool {
        &&& self.admin() is None ==> self.breakers() == Map::<u64, BreakerData>::empty()
        &&& self.admin() is Some ==> self.threshold() > 0
        &&& forall|id: u64| #[trigger]
            self.breakers().contains_key(id) && self.breakers()[id].status
                == BreakerStatus::Closed ==> self.breakers()[id].failure_count < self.threshold()
    }

    /// The admin check shared by the mutating operations.
    pub open spec fn admin_check(&self, caller: Address) -> Option<Error> {
        match self.admin() {
            None => Some(Error::NotInitialized),
            Some(a) => if a != caller {
                Some(Error::NotAuthorized)
            } else {
                None
            },
        }
    }

    pub fn new() -> (r: Self)
        ensures
            r.wf(),
            r.admin() is None,
            r.breakers() == Map::<u64, BreakerData>::empty(),
    {
        ContractCircuitBreaker { admin: None, threshold: 0, breakers: HashMap::new() }
    }

    pub fn init(&mut self, admin: Address, threshold: u32) -> (r: Result<(), Error>)
        requires
            old(self).wf(),
        ensures
            final(self).wf(),
            r == if old(self).admin() is Some {
                Err(Error::AlreadyInitialized)
            } else if threshold == 0 {
                Err(Error::InvalidThreshold)
            } else {
                Ok(())
            },
            r is Ok ==> final(self).admin() == Some(admin) && final(self).threshold() == threshold
                && final(self).breakers() == old(self).breakers(),
            r is Err ==> final(self).admin() == old(self).admin() && final(self).threshold()
                == old(self).threshold() && final(self).breakers() == old(self).breakers(),
    {
        if self.admin.is_some() {
            return Err(Error::AlreadyInitialized);
        }
        if threshold == 0 {
            return Err(Error::InvalidThreshold);
        }
        self.admin = Some(admin);
        self.threshold = threshold;
        Ok(())
    }

    fn require_admin(&self, caller: Address) -> (r: Result<(), Error>)
        ensures
            r == match self.admin_check(caller) {
                Some(e) => Err(e),
                None => Ok::<(), Error>(()),
            },
    {
        match self.admin {
            None => Err(Error::NotInitialized),
            Some(a) => if a != caller {
                Err(Error::NotAuthorized)
            } else {
                Ok(())
            },
        }
    }

    fn load(&self, contract_id: Address) -> (r: BreakerData)
        ensures
            r == self.breaker_of(contract_id),
    {
        broadcast use vstd::std_specs::hash::group_hash_axioms;

        match self.breakers.get(&contract_id.0) {
            Some(d) => *d,
            None => BreakerData { failure_count: 0, status: BreakerStatus::Closed, last_failure_ledger: 0 },
        }
    }

    /// Counts a failure of `contract_id` seen at ledger `ledger`; the code is
    /// informational.
    pub fn record_failure(&mut self, admin: Address, contract_id: Address, code: u32, ledger: u32) -> (r:
        Result<(), Error>)
        requires
            old(self).wf(),
        ensures
            final(self).wf(),
            final(self).admin() == old(self).admin(),
            final(self).threshold() == old(self).threshold(),
            r == match old(self).admin_check(admin) {
                Some(e) => Err(e),
                None => Ok::<(), Error>(()),
            },
            r is Ok ==> final(self).breakers() == old(self).breakers().insert(
                contract_id.0,
                after_failure(old(self).breaker_of(contract_id), old(self).threshold(), ledger),
            ),
            r is Err ==> final(self).breakers() == old(self).breakers(),
    {
        broadcast use vstd::std_specs::hash::group_hash_axioms;

        match self.require_admin(admin) {
            Err(e) => return Err(e),
            Ok(()) => {},
        }
        let mut data = self.load(contract_id);
        if data.status == BreakerStatus::Closed {
            data.failure_count = data.failure_count + 1;
            data.last_failure_ledger = ledger;
            if data.failure_count >= self.threshold {
                data.status = BreakerStatus::Open;
            }
        }
        self.breakers.insert(contract_id.0, data);
        Ok(())
    }

    /// Opens the breaker of `contract_id` by hand, keeping its count.
    pub fn trip(&mut self, admin: Address, contract_id: Address) -> (r: Result<(), Error>)
        requires
            old(self).wf(),
        ensures
            final(self).wf(),
            final(self).admin() == old(self).admin(),
            final(self).threshold() == old(self).threshold(),
            r == match old(self).admin_check(admin) {
                Some(e) => Err(e),
                None => Ok::<(), Error>(()),
            },
            r is Ok ==> final(self).breakers() == old(self).breakers().insert(
                contract_id.0,
                BreakerData { status: BreakerStatus::Open, ..old(self).breaker_of(contract_id) },
            ),
            r is Err ==> final(self).breakers() == old(self).breakers(),
    {
        broadcast use vstd::std_specs::hash::group_hash_axioms;

        match self.require_admin(admin) {
            Err(e) => return Err(e),
            Ok(()) => {},
        }
        let data = self.load(contract_id);
        self.breakers.insert(contract_id.0, BreakerData { status: BreakerStatus::Open, ..data });
        Ok(())
    }

    /// Closes the breaker of `contract_id` and clears its count.
    pub fn reset(&mut self, admin: Address, contract_id: Address) -> (r: Result<(), Error>)
        requires
            old(self).wf(),
        ensures
            final(self).wf(),
            final(self).admin() == old(self).admin(),
            final(self).threshold() == old(self).threshold(),
            r == match old(self).admin_check(admin) {
                Some(e) => Err(e),
                None => Ok::<(), Error>(()),
            },
            r is Ok ==> final(self).breakers() == old(self).breakers().insert(
                contract_id.0,
                fresh_breaker(),
            ),
            r is Err ==> final(self).breakers() == old(self).breakers(),
    {
        broadcast use vstd::std_specs::hash::group_hash_axioms;

        match self.require_admin(admin) {
            Err(e) => return Err(e),
            Ok(()) => {},
        }
        self.breakers.insert(
            contract_id.0,
            BreakerData { failure_count: 0, status: BreakerStatus::Closed, last_failure_ledger: 0 },
        );
        Ok(())
    }

    /// The stored state of the breaker of `contract_id`, if any.
    pub fn breaker_state(&self, contract_id: Address) -> (r: Option<BreakerData>)
        ensures
            r == if self.breakers().contains_key(contract_id.0) {
                Some(self.breakers()[contract_id.0])
            } else {
                None
            },
    {
        broadcast use vstd::std_specs::hash::group_hash_axioms;

        match self.breakers.get(&contract_id.0) {
            Some(d) => Some(*d),
            None => None,
        }
    }
}

} // verus!
