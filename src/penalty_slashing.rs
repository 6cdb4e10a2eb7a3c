//! Violation codes with slash amounts, penalties applied against accounts, and
//! appeals.
use crate::token::moved;
use crate::token::TokenLedger;
use crate::Address;
use std::collections::HashMap;
use vstd::prelude::*;

verus! {

/// Why a penalty operation was refused.
#[derive(Clone, Copy, Debug, PartialEq, Eq, Structural)]
pub enum Error {
    AlreadyInitialized,
    NotInitialized,
    NotAuthorized,
    NegativeSlashAmount,
    ViolationNotDefined,
    PenaltyNotFound,
    /// Only an applied penalty can be appealed.
    NotApplied,
    Overflow,
    TransferFailed,
}

#[derive(Clone, Copy, Debug, PartialEq, Eq, Structural)]
pub enum PenaltyStatus {
    Applied,
    Appealed,
    Resolved,
}

#[derive(Clone, Debug)]
pub struct PenaltyRule {
    pub code: String,
    pub slash_amount: i128,
    pub description_hash: String,
}

#[derive(Clone, Debug)]
pub struct PenaltyRecord {
    pub penalty_id: u64,
    pub account: Address,
    pub code: String,
    pub slash_amount: i128,
    pub context_hash: String,
    pub status: PenaltyStatus,
}

/// A defined violation: its code and rule.
pub struct Violation {
    pub code: String,
    pub rule: PenaltyRule,
}

/// The rule most recently defined for `code` in a log of definitions.
pub open spec fn rule_in(log: Seq<Violation>, code: Seq<char>) -> Option<PenaltyRule>
    decreases log.len(),
{
    if log.len() == 0 {
        None
    } else if log.last().code@ == code {
        Some(log.last().rule)
    } else {
        rule_in(log.drop_last(), code)
    }
}

fn copy_rule(r: &PenaltyRule) -> (c: PenaltyRule)
    ensures
        c == *r,
{
    PenaltyRule {
        code: r.code.clone(),
        slash_amount: r.slash_amount,
        description_hash: r.description_hash.clone(),
    }
}

fn copy_record(r: &PenaltyRecord) -> (c: PenaltyRecord)
    ensures
        c == *r,
{
    PenaltyRecord {
        penalty_id: r.penalty_id,
        account: r.account,
        code: r.code.clone(),
        slash_amount: r.slash_amount,
        context_hash: r.context_hash.clone(),
        status: r.status,
    }
}

/// The penalty contract.
pub struct PenaltySlashing {
    admin: Option<Address>,
    treasury: Address,
    next_id: u64,
    violations: Vec<Violation>,
    penalties: HashMap<u64, PenaltyRecord>,
}

impl PenaltySlashing {
    pub closed spec fn admin(&self) -> Option<Address> {
        self.admin
    }

    /// Where slashed amounts go.
    pub closed spec fn treasury(&self) -> Address {
        self.treasury
    }

    pub closed spec fn next_id(&self) -> u64 {
        self.next_id
    }

    /// The rule in force for `code`, if one was defined.
    pub closed spec fn rule(&self, code: Seq<char>) -> Option<PenaltyRule> {
        rule_in(self.violations@, code)
    }

    pub closed spec fn penalties(&self) -> Map<u64, PenaltyRecord> {
        self.penalties@
    }

    /// Every defined rule slashes a non-negative amount.
    pub closed spec fn wf(&self) -> bool {
        forall|i: int| 0 <= i < self.violations@.len() ==> #[trigger] self.violations@[i].rule.slash_amount >= 0
    }

    pub open spec fn admin_check(&self, caller: Address) -> Option<Error> {
        match self.admin() {
            None => Some(Error::NotInitialized),
            Some(a) => if a != caller {
                Some(Error::NotAuthorized)
            } else {
                None
            },
        }
    }

    pub fn new() -> (r: Self)
        ensures
            r.wf(),
            r.admin() is None,
            r.next_id() == 0,
            forall|c: Seq<char>| r.rule(c) is None,
            r.penalties() == Map::<u64, PenaltyRecord>::empty(),
    {
        PenaltySlashing {
            admin: None,
            treasury: Address(0),
            next_id: 0,
            violations: Vec::new(),
            penalties: HashMap::new(),
        }
    }

    pub fn init(&mut self, admin: Address, treasury_contract: Address) -> (r: Result<(), Error>)
        requires
            old(self).wf(),
        ensures
            final(self).wf(),
            final(self).next_id() == old(self).next_id(),
            final(self).penalties() == old(self).penalties(),
            forall|c: Seq<char>| final(self).rule(c) == old(self).rule(c),
            old(self).admin() is Some ==> r == Err::<(), Error>(Error::AlreadyInitialized)
                && final(self).admin() == old(self).admin(),
            old(self).admin() is None ==> r is Ok && final(self).admin() == Some(admin)
                && final(self).treasury() == treasury_contract,
    {
        if self.admin.is_some() {
            return Err(Error::AlreadyInitialized);
        }
        self.admin = Some(admin);
        self.treasury = treasury_contract;
        Ok(())
    }

    fn require_admin(&self, caller: Address) -> (r: Result<(), Error>)
        ensures
            r == match self.admin_check(caller) {
                Some(e) => Err(e),
                None => Ok::<(), Error>(()),
            },
    {
        match self.admin {
            None => Err(Error::NotInitialized),
            Some(a) => if a != caller {
                Err(Error::NotAuthorized)
            } else {
                Ok(())
            },
        }
    }

    /// Defines, or redefines, the rule of violation `code`.
    pub fn define_violation(&mut self, admin: Address, code: String, penalty_rule: PenaltyRule) -> (r:
        Result<(), Error>)
        requires
            old(self).wf(),
        ensures
            final(self).wf(),
            final(self).admin() == old(self).admin(),
            final(self).treasury() == old(self).treasury(),
            final(self).next_id() == old(self).next_id(),
            final(self).penalties() == old(self).penalties(),
            r == match old(self).admin_check(admin) {
                Some(e) => Err(e),
                None => if penalty_rule.slash_amount < 0 {
                    Err(Error::NegativeSlashAmount)
                } else {
                    Ok(())
                },
            },
            r is Ok ==> forall|c: Seq<char>| #[trigger]
                final(self).rule(c) == if c == code@ {
                    Some(penalty_rule)
                } else {
                    old(self).rule(c)
                },
            r is Err ==> forall|c: Seq<char>| #[trigger] final(self).rule(c) == old(self).rule(c),
    {
        match self.require_admin(admin) {
            Err(e) => return Err(e),
            Ok(()) => {},
        }
        if penalty_rule.slash_amount < 0 {
            return Err(Error::NegativeSlashAmount);
        }
        let ghost before = self.violations@;
        self.violations.push(Violation { code, rule: penalty_rule });
        assert(self.violations@.drop_last() == before);
        Ok(())
    }

    /// The rule in force for `code`.
    fn find_rule(&self, code: &String) -> (r: Option<PenaltyRule>)
        ensures
            r == self.rule(code@),
    {
        let mut i: usize = self.violations.len();
        assert(self.violations@.take(i as int) == self.violations@);
        while i > 0
            invariant
                i <= self.violations@.len(),
                rule_in(self.violations@, code@) == rule_in(self.violations@.take(i as int), code@),
            decreases i,
        {
            let ghost pre = self.violations@.take(i as int);
            assert(pre.drop_last() == self.violations@.take(i - 1));
            if self.violations[i - 1].code == *code {
                return Some(copy_rule(&self.violations[i - 1].rule));
            }
            i = i - 1;
        }
        None
    }

    /// Applies violation `code` to `account`: its slash amount, if any, moves
    /// from the account to the treasury. Returns the penalty's id.
    pub fn apply_penalty(
        &mut self,
        token: &mut TokenLedger,
        admin: Address,
        account: Address,
        code: String,
        context_hash: String,
    ) -> (r: Result<u64, Error>)
        requires
            old(self).wf(),
            old(token).wf(),
        ensures
            final(self).wf(),
            final(token).wf(),
            final(self).admin() == old(self).admin(),
            final(self).treasury() == old(self).treasury(),
            forall|c: Seq<char>| final(self).rule(c) == old(self).rule(c),
            r == match old(self).admin_check(admin) {
                Some(e) => Err(e),
                None => match old(self).rule(code@) {
                    None => Err(Error::ViolationNotDefined),
                    Some(rule) => if old(self).next_id() == u64::MAX {
                        Err(Error::Overflow)
                    } else if rule.slash_amount > 0 && old(token).transfer_outcome(
                        account,
                        old(self).treasury(),
                        rule.slash_amount,
                    ) is Err {
                        Err(Error::TransferFailed)
                    } else {
                        Ok(old(self).next_id())
                    },
                },
            },
            r is Ok ==> {
                let rule = old(self).rule(code@).unwrap();
                &&& final(self).next_id() == old(self).next_id() + 1
                &&& final(self).penalties() == old(self).penalties().insert(
                    old(self).next_id(),
                    PenaltyRecord {
                        penalty_id: old(self).next_id(),
                        account,
                        code,
                        slash_amount: rule.slash_amount,
                        context_hash,
                        status: PenaltyStatus::Applied,
                    },
                )
                &&& final(token).view_balances() == if rule.slash_amount > 0 {
                    moved(
                        old(token).view_balances(),
                        account.0,
                        old(self).treasury().0,
                        rule.slash_amount as int,
                    )
                } else {
                    old(token).view_balances()
                }
            },
            r is Err ==> final(self).next_id() == old(self).next_id() && final(self).penalties()
                == old(self).penalties() && final(token).view_balances()
                == old(token).view_balances(),
    {
        broadcast use vstd::std_specs::hash::group_hash_axioms;

        match self.require_admin(admin) {
            Err(e) => return Err(e),
            Ok(()) => {},
        }
        let rule = match self.find_rule(&code) {
            None => return Err(Error::ViolationNotDefined),
            Some(r) => r,
        };
        let penalty_id = self.next_id;
        let next = match penalty_id.checked_add(1) {
            Some(n) => n,
            None => return Err(Error::Overflow),
        };
        if rule.slash_amount > 0 {
            match token.transfer(account, self.treasury, rule.slash_amount) {
                Err(_) => return Err(Error::TransferFailed),
                Ok(()) => {},
            }
        }
        self.next_id = next;
        self.penalties.insert(
            penalty_id,
            PenaltyRecord {
                penalty_id,
                account,
                code,
                slash_amount: rule.slash_amount,
                context_hash,
                status: PenaltyStatus::Applied,
            },
        );
        Ok(penalty_id)
    }

    /// The penalised account appeals an applied penalty.
    pub fn appeal_penalty(&mut self, caller: Address, penalty_id: u64) -> (r: Result<(), Error>)
        requires
            old(self).wf(),
        ensures
            final(self).wf(),
            final(self).admin() == old(self).admin(),
            final(self).next_id() == old(self).next_id(),
            forall|c: Seq<char>| final(self).rule(c) == old(self).rule(c),
            r == if !old(self).penalties().contains_key(penalty_id) {
                Err(Error::PenaltyNotFound)
            } else if old(self).penalties()[penalty_id].account != caller {
                Err(Error::NotAuthorized)
            } else if old(self).penalties()[penalty_id].status != PenaltyStatus::Applied {
                Err(Error::NotApplied)
            } else {
                Ok(())
            },
            r is Ok ==> final(self).penalties() == old(self).penalties().insert(
                penalty_id,
                PenaltyRecord { status: PenaltyStatus::Appealed, ..old(self).penalties()[penalty_id] },
            ),
            r is Err ==> final(self).penalties() == old(self).penalties(),
    {
        broadcast use vstd::std_specs::hash::group_hash_axioms;

        let rec = match self.penalties.get(&penalty_id) {
            None => return Err(Error::PenaltyNotFound),
            Some(r) => copy_record(r),
        };
        if rec.account != caller {
            return Err(Error::NotAuthorized);
        }
        if rec.status != PenaltyStatus::Applied {
            return Err(Error::NotApplied);
        }
        self.penalties.insert(penalty_id, PenaltyRecord { status: PenaltyStatus::Appealed, ..rec });
        Ok(())
    }

    /// The record of penalty `penalty_id`.
    pub fn penalty_state(&self, penalty_id: u64) -> (r: Result<PenaltyRecord, Error>)
        ensures
            r == if self.penalties().contains_key(penalty_id) {
                Ok(self.penalties()[penalty_id])
            } else {
                Err(Error::PenaltyNotFound)
            },
    {
        broadcast use vstd::std_specs::hash::group_hash_axioms;

        match self.penalties.get(&penalty_id) {
            Some(r) => Ok(copy_record(r)),
            None => Err(Error::PenaltyNotFound),
        }
    }
}

} // verus!
