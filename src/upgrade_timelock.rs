//! Contract upgrades that must wait out a minimum delay before they run.
use crate::Address;
use std::collections::HashMap;
use vstd::prelude::*;

verus! {

/// Why a timelock operation was refused.
#[derive(Clone, Copy, Debug, PartialEq, Eq, Structural)]
pub enum Error {
    AlreadyInitialized,
    NotInitialized,
    NotAuthorized,
    /// The eta is earlier than now plus the minimum delay.
    EtaTooSoon,
    Overflow,
    UpgradeNotFound,
    /// The upgrade was already executed or cancelled.
    NotQueued,
    /// The eta has not been reached.
    TimelockNotElapsed,
}

#[derive(Clone, Copy, Debug, PartialEq, Eq, Structural)]
pub enum UpgradeStatus {
    Queued,
    Executed,
    Cancelled,
}

#[derive(Clone, Debug)]
pub struct UpgradeRecord {
    pub upgrade_id: u64,
    pub target_contract: Address,
    pub payload_hash: String,
    pub eta: u64,
    pub status: UpgradeStatus,
}

/// Published when an upgrade is queued.
#[derive(Clone, Copy, Debug, PartialEq, Eq, Structural)]
pub struct UpgradeQueued {
    pub upgrade_id: u64,
    pub target_contract: Address,
    pub eta: u64,
}

/// Published when an upgrade is cancelled.
#[derive(Clone, Copy, Debug, PartialEq, Eq, Structural)]
pub struct UpgradeCancelled {
    pub upgrade_id: u64,
}

/// Published when an upgrade is executed.
#[derive(Clone, Copy, Debug, PartialEq, Eq, Structural)]
pub struct UpgradeExecuted {
    pub upgrade_id: u64,
    pub target_contract: Address,
}

fn copy_record(r: &UpgradeRecord) -> (c: UpgradeRecord)
    ensures
        c == *r,
{
    UpgradeRecord {
        upgrade_id: r.upgrade_id,
        target_contract: r.target_contract,
        payload_hash: r.payload_hash.clone(),
        eta: r.eta,
        status: r.status,
    }
}

/// The timelock contract.
pub struct ContractUpgradeTimelock {
    admin: Option<Address>,
    min_delay: u64,
    next_id: u64,
    upgrades: HashMap<u64, UpgradeRecord>,
}

impl ContractUpgradeTimelock {
    pub closed spec fn admin(&self) -> Option<Address> {
        self.admin
    }

    pub closed spec fn min_delay(&self) -> u64 {
        self.min_delay
    }

    /// The id the next queued upgrade receives.
    pub closed spec fn next_id(&self) -> u64 {
        self.next_id
    }

    pub closed spec fn upgrades(&self) -> Map<u64, UpgradeRecord> {
        self.upgrades@
    }

    pub open spec fn admin_check(&self, caller: Address) -> Option<Error> {
        match self.admin() {
            None => Some(Error::NotInitialized),
            Some(a) => if a != caller {
                Some(Error::NotAuthorized)
            } else {
                None
            },
        }
    }

    /// The checks shared by `cancel_upgrade` and `execute_upgrade`.
    pub open spec fn queued_check(&self, caller: Address, upgrade_id: u64) -> Option<Error> {
        match self.admin_check(caller) {
            Some(e) => Some(e),
            None => if !self.upgrades().contains_key(upgrade_id) {
                Some(Error::UpgradeNotFound)
            } else if self.upgrades()[upgrade_id].status != UpgradeStatus::Queued {
                Some(Error::NotQueued)
            } else {
                None
            },
        }
    }

    pub fn new() -> (r: Self)
        ensures
            r.admin() is None,
            r.next_id() == 0,
            r.upgrades() == Map::<u64, UpgradeRecord>::empty(),
    {
        ContractUpgradeTimelock { admin: None, min_delay: 0, next_id: 0, upgrades: HashMap::new() }
    }

    pub fn init(&mut self, admin: Address, min_delay: u64) -> (r: Result<(), Error>)
        ensures
            old(self).admin() is Some ==> r == Err::<(), Error>(Error::AlreadyInitialized)
                && final(self).admin() == old(self).admin() && final(self).min_delay() == old(
                self,
            ).min_delay(),
            old(self).admin() is None ==> r is Ok && final(self).admin() == Some(admin)
                && final(self).min_delay() == min_delay,
            final(self).next_id() == old(self).next_id(),
            final(self).upgrades() == old(self).upgrades(),
    {
        if self.admin.is_some() {
            return Err(Error::AlreadyInitialized);
        }
        self.admin = Some(admin);
        self.min_delay = min_delay;
        Ok(())
    }

    fn require_admin(&self, caller: Address) -> (r: Result<(), Error>)
        ensures
            r == match self.admin_check(caller) {
                Some(e) => Err(e),
                None => Ok::<(), Error>(()),
            },
    {
        match self.admin {
            None => Err(Error::NotInitialized),
            Some(a) => if a != caller {
                Err(Error::NotAuthorized)
            } else {
                Ok(())
            },
        }
    }

    /// Queues an upgrade of `target_contract` to run no earlier than `eta`,
    /// which must be at least the minimum delay after `now`; returns its id.
    pub fn queue_upgrade(
        &mut self,
        admin: Address,
        target_contract: Address,
        payload_hash: String,
        eta: u64,
        now: u64,
    ) -> (r: Result<u64, Error>)
        ensures
            final(self).admin() == old(self).admin(),
            final(self).min_delay() == old(self).min_delay(),
            r == match old(self).admin_check(admin) {
                Some(e) => Err(e),
                None => if now + old(self).min_delay() > u64::MAX {
                    Err(Error::Overflow)
                } else if eta < now + old(self).min_delay() {
                    Err(Error::EtaTooSoon)
                } else if old(self).next_id() == u64::MAX {
                    Err(Error::Overflow)
                } else {
                    Ok(old(self).next_id())
                },
            },
            r is Ok ==> final(self).next_id() == old(self).next_id() + 1
                && final(self).upgrades() == old(self).upgrades().insert(
                old(self).next_id(),
                UpgradeRecord {
                    upgrade_id: old(self).next_id(),
                    target_contract,
                    payload_hash,
                    eta,
                    status: UpgradeStatus::Queued,
                },
            ),
            r is Err ==> final(self).next_id() == old(self).next_id() && final(self).upgrades()
                == old(self).upgrades(),
    {
        broadcast use vstd::std_specs::hash::group_hash_axioms;

        match self.require_admin(admin) {
            Err(e) => return Err(e),
            Ok(()) => {},
        }
        let earliest = match now.checked_add(self.min_delay) {
            Some(t) => t,
            None => return Err(Error::Overflow),
        };
        if eta < earliest {
            return Err(Error::EtaTooSoon);
        }
        let upgrade_id = self.next_id;
        let next = match upgrade_id.checked_add(1) {
            Some(n) => n,
            None => return Err(Error::Overflow),
        };
        self.next_id = next;
        self.upgrades.insert(
            upgrade_id,
            UpgradeRecord {
                upgrade_id,
                target_contract,
                payload_hash,
                eta,
                status: UpgradeStatus::Queued,
            },
        );
        Ok(upgrade_id)
    }

    fn set_status(&mut self, upgrade_id: u64, status: UpgradeStatus)
        requires
            old(self).upgrades().contains_key(upgrade_id),
        ensures
            final(self).admin() == old(self).admin(),
            final(self).min_delay() == old(self).min_delay(),
            final(self).next_id() == old(self).next_id(),
            final(self).upgrades() == old(self).upgrades().insert(
                upgrade_id,
                UpgradeRecord { status, ..old(self).upgrades()[upgrade_id] },
            ),
    {
        broadcast use vstd::std_specs::hash::group_hash_axioms;

        if let Some(r) = self.upgrades.get(&upgrade_id) {
            let rec = copy_record(r);
            self.upgrades.insert(upgrade_id, UpgradeRecord { status, ..rec });
        }
    }

    /// Cancels a queued upgrade.
    pub fn cancel_upgrade(&mut self, admin: Address, upgrade_id: u64) -> (r: Result<(), Error>)
        ensures
            final(self).admin() == old(self).admin(),
            final(self).min_delay() == old(self).min_delay(),
            final(self).next_id() == old(self).next_id(),
            r == match old(self).queued_check(admin, upgrade_id) {
                Some(e) => Err(e),
                None => Ok::<(), Error>(()),
            },
            r is Ok ==> final(self).upgrades() == old(self).upgrades().insert(
                upgrade_id,
                UpgradeRecord { status: UpgradeStatus::Cancelled, ..old(self).upgrades()[upgrade_id] },
            ),
            r is Err ==> final(self).upgrades() == old(self).upgrades(),
    {
        broadcast use vstd::std_specs::hash::group_hash_axioms;

        match self.require_admin(admin) {
            Err(e) => return Err(e),
            Ok(()) => {},
        }
        match self.upgrades.get(&upgrade_id) {
            None => return Err(Error::UpgradeNotFound),
            Some(rec) => {
                if rec.status != UpgradeStatus::Queued {
                    return Err(Error::NotQueued);
                }
            },
        }
        self.set_status(upgrade_id, UpgradeStatus::Cancelled);
        Ok(())
    }

    /// Executes a queued upgrade whose eta has been reached at `now`.
    pub fn execute_upgrade(&mut self, admin: Address, upgrade_id: u64, now: u64) -> (r: Result<
        UpgradeExecuted,
        Error,
    >)
        ensures
            final(self).admin() == old(self).admin(),
            final(self).min_delay() == old(self).min_delay(),
            final(self).next_id() == old(self).next_id(),
            r == match old(self).queued_check(admin, upgrade_id) {
                Some(e) => Err(e),
                None => if now < old(self).upgrades()[upgrade_id].eta {
                    Err(Error::TimelockNotElapsed)
                } else {
                    Ok(
                        UpgradeExecuted {
                            upgrade_id,
                            target_contract: old(self).upgrades()[upgrade_id].target_contract,
                        },
                    )
                },
            },
            r is Ok ==> final(self).upgrades() == old(self).upgrades().insert(
                upgrade_id,
                UpgradeRecord { status: UpgradeStatus::Executed, ..old(self).upgrades()[upgrade_id] },
            ),
            r is Err ==> final(self).upgrades() == old(self).upgrades(),
    {
        broadcast use vstd::std_specs::hash::group_hash_axioms;

        match self.require_admin(admin) {
            Err(e) => return Err(e),
            Ok(()) => {},
        }
        let target_contract = match self.upgrades.get(&upgrade_id) {
            None => return Err(Error::UpgradeNotFound),
            Some(rec) => {
                if rec.status != UpgradeStatus::Queued {
                    return Err(Error::NotQueued);
                }
                if now < rec.eta {
                    return Err(Error::TimelockNotElapsed);
                }
                rec.target_contract
            },
        };
        self.set_status(upgrade_id, UpgradeStatus::Executed);
        Ok(UpgradeExecuted { upgrade_id, target_contract })
    }

    /// The record of upgrade `upgrade_id`.
    pub fn upgrade_state(&self, upgrade_id: u64) -> (r: Result<UpgradeRecord, Error>)
        ensures
            r == if self.upgrades().contains_key(upgrade_id) {
                Ok(self.upgrades()[upgrade_id])
            } else {
                Err(Error::UpgradeNotFound)
            },
    {
        broadcast use vstd::std_specs::hash::group_hash_axioms;

        match self.upgrades.get(&upgrade_id) {
            Some(rec) => Ok(copy_record(rec)),
            None => Err(Error::UpgradeNotFound),
        }
    }
}

} // verus!
