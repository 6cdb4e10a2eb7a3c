//! Health reports per monitored contract, with a bounded history.
use crate::Address;
use std::collections::HashMap;
use vstd::prelude::*;

verus! {

/// How many reports a contract's history keeps when no policy says otherwise.
pub const DEFAULT_MAX_HISTORY: u32 = 10;

/// Why a registry operation was refused.
#[derive(Clone, Copy, Debug, PartialEq, Eq, Structural)]
pub enum Error {
    AlreadyInitialized,
    NotInitialized,
    NotAuthorized,
    /// A policy must keep at least one report.
    InvalidMaxHistory,
    NoHealthData,
}

#[derive(Clone, Copy, Debug, PartialEq, Eq, Structural)]
pub enum HealthStatus {
    Healthy,
    Degraded,
    Critical,
    Unknown,
}

#[derive(Clone, Debug)]
pub struct HealthReport {
    pub contract_id: Address,
    pub status: HealthStatus,
    pub details_hash: String,
    pub timestamp: u64,
    pub reported_by: Address,
}

#[derive(Clone, Debug)]
pub struct HealthPolicy {
    pub contract_id: Address,
    pub policy_type: String,
    pub max_history: u32,
}

fn copy_report(r: &HealthReport) -> (c: HealthReport)
    ensures
        c == *r,
{
    HealthReport {
        contract_id: r.contract_id,
        status: r.status,
        details_hash: r.details_hash.clone(),
        timestamp: r.timestamp,
        reported_by: r.reported_by,
    }
}

/// The last `max` reports of `h`, or all of them if there are fewer.
pub open spec fn keep_last(h: Seq<HealthReport>, max: nat) -> Seq<HealthReport> {
    if h.len() > max {
        h.subrange(h.len() - max, h.len() as int)
    } else {
        h
    }
}

/// The health registry contract.
pub struct ContractHealthRegistry {
    admin: Option<Address>,
    policies: HashMap<u64, HealthPolicy>,
    histories: HashMap<u64, Vec<HealthReport>>,
}

impl ContractHealthRegistry {
    pub closed spec fn admin(&self) -> Option<Address> {
        self.admin
    }

    /// The policy of a monitored contract, if one was set.
    pub closed spec fn policies(&self) -> Map<u64, HealthPolicy> {
        self.policies@
    }

    /// The reports kept for `contract_id`, oldest first.
    pub closed spec fn history_of(&self, contract_id: Address) -> Seq<HealthReport> {
        if self.histories@.contains_key(contract_id.0) {
            self.histories@[contract_id.0]@
        } else {
            Seq::empty()
        }
    }

    /// How many reports are kept for `contract_id`.
    pub open spec fn max_history_of(&self, contract_id: Address) -> nat {
        if self.policies().contains_key(contract_id.0) {
            self.policies()[contract_id.0].max_history as nat
        } else {
            DEFAULT_MAX_HISTORY as nat
        }
    }

    pub closed spec fn wf(&self) -> bool {
        forall|id: u64| #[trigger]
            self.policies@.contains_key(id) ==> self.policies@[id].max_history > 0
    }

    pub fn new() -> (r: Self)
        ensures
            r.wf(),
            r.admin() is None,
            r.policies() == Map::<u64, HealthPolicy>::empty(),
            forall|c: Address| r.history_of(c) == Seq::<HealthReport>::empty(),
    {
        ContractHealthRegistry { admin: None, policies: HashMap::new(), histories: HashMap::new() }
    }

    pub fn init(&mut self, admin: Address) -> (r: Result<(), Error>)
        requires
            old(self).wf(),
        ensures
            final(self).wf(),
            final(self).policies() == old(self).policies(),
            forall|c: Address| final(self).history_of(c) == old(self).history_of(c),
            old(self).admin() is Some ==> r == Err::<(), Error>(Error::AlreadyInitialized)
                && final(self).admin() == old(self).admin(),
            old(self).admin() is None ==> r is Ok && final(self).admin() == Some(admin),
    {
        if self.admin.is_some() {
            return Err(Error::AlreadyInitialized);
        }
        self.admin = Some(admin);
        Ok(())
    }

    fn max_history(&self, contract_id: Address) -> (r: u32)
        ensures
            r == self.max_history_of(contract_id),
    {
        broadcast use vstd::std_specs::hash::group_hash_axioms;

        match self.policies.get(&contract_id.0) {
            Some(p) => p.max_history,
            None => DEFAULT_MAX_HISTORY,
        }
    }

    /// The admin reports the health of `contract_id` at `timestamp`; the
    /// history keeps the newest reports up to the contract's limit.
    pub fn report_health(
        &mut self,
        reporter: Address,
        contract_id: Address,
        status: HealthStatus,
        details_hash: String,
        timestamp: u64,
    ) -> (r: Result<(), Error>)
        requires
            old(self).wf(),
        ensures
            final(self).wf(),
            final(self).admin() == old(self).admin(),
            final(self).policies() == old(self).policies(),
            r == match old(self).admin() {
                None => Err(Error::NotInitialized),
                Some(a) => if a != reporter {
                    Err(Error::NotAuthorized)
                } else {
                    Ok(())
                },
            },
            forall|c: Address| #[trigger]
                final(self).history_of(c) == if r is Ok && c.0 == contract_id.0 {
                    keep_last(
                        old(self).history_of(c).push(
                            HealthReport {
                                contract_id,
                                status,
                                details_hash,
                                timestamp,
                                reported_by: reporter,
                            },
                        ),
                        old(self).max_history_of(c),
                    )
                } else {
                    old(self).history_of(c)
                },
    {
        broadcast use vstd::std_specs::hash::group_hash_axioms;

        match self.admin {
            None => return Err(Error::NotInitialized),
            Some(a) => {
                if a != reporter {
                    return Err(Error::NotAuthorized);
                }
            },
        }
        let max = self.max_history(contract_id) as usize;
        let report = HealthReport { contract_id, status, details_hash, timestamp, reported_by: reporter };
        let mut history = match self.histories.remove(&contract_id.0) {
            Some(h) => h,
            None => Vec::new(),
        };
        history.push(report);
        let ghost full = history@;
        let total: usize = history.len();
        let mut dropped: usize = 0;
        while history.len() > max
            invariant
                history@ == full.subrange(dropped as int, full.len() as int),
                dropped <= full.len(),
                dropped > 0 ==> full.len() - dropped >= max,
                full.len() == total,
            decreases history@.len(),
        {
            assert(dropped < full.len());
            history.remove(0);
            dropped = dropped + 1;
        }
        proof {
            if full.len() > max {
                assert(dropped == full.len() - max);
            } else {
                assert(dropped == 0);
                assert(full.subrange(0, full.len() as int) == full);
            }
        }
        self.histories.insert(contract_id.0, history);
        Ok(())
    }

    /// Sets the policy of `contract_id`; it must keep at least one report.
    pub fn set_health_policy(&mut self, admin: Address, contract_id: Address, policy: HealthPolicy) -> (r:
        Result<(), Error>)
        requires
            old(self).wf(),
        ensures
            final(self).wf(),
            final(self).admin() == old(self).admin(),
            forall|c: Address| final(self).history_of(c) == old(self).history_of(c),
            r == match old(self).admin() {
                None => Err(Error::NotInitialized),
                Some(a) => if a != admin {
                    Err(Error::NotAuthorized)
                } else if policy.max_history == 0 {
                    Err(Error::InvalidMaxHistory)
                } else {
                    Ok(())
                },
            },
            r is Ok ==> final(self).policies() == old(self).policies().insert(contract_id.0, policy),
            r is Err ==> final(self).policies() == old(self).policies(),
    {
        broadcast use vstd::std_specs::hash::group_hash_axioms;

        match self.admin {
            None => return Err(Error::NotInitialized),
            Some(a) => {
                if a != admin {
                    return Err(Error::NotAuthorized);
                }
            },
        }
        if policy.max_history == 0 {
            return Err(Error::InvalidMaxHistory);
        }
        self.policies.insert(contract_id.0, policy);
        Ok(())
    }

    /// The latest report on `contract_id`.
    pub fn health_of(&self, contract_id: Address) -> (r: Result<HealthReport, Error>)
        ensures
            r == if self.history_of(contract_id).len() > 0 {
                Ok(self.history_of(contract_id).last())
            } else {
                Err(Error::NoHealthData)
            },
    {
        broadcast use vstd::std_specs::hash::group_hash_axioms;

        match self.histories.get(&contract_id.0) {
            Some(h) => {
                if h.len() == 0 {
                    return Err(Error::NoHealthData);
                }
                Ok(copy_report(&h[h.len() - 1]))
            },
            None => Err(Error::NoHealthData),
        }
    }

    /// The reports kept for `contract_id`, oldest first.
    pub fn history(&self, contract_id: Address) -> (r: Vec<HealthReport>)
        ensures
            r@ == self.history_of(contract_id),
    {
        broadcast use vstd::std_specs::hash::group_hash_axioms;

        let mut out: Vec<HealthReport> = Vec::new();
        match self.histories.get(&contract_id.0) {
            Some(h) => {
                let mut i: usize = 0;
                while i < h.len()
                    invariant
                        i <= h@.len(),
                        out@ == h@.take(i as int),
                    decreases h@.len() - i,
                {
                    out.push(copy_report(&h[i]));
                    i = i + 1;
                    assert(out@ =~= h@.take(i as int));
                }
                assert(h@.take(h@.len() as int) == h@);
            },
            None => {},
        }
        out
    }
}

} // verus!
