//! Escrow of token amounts between a payer and a payee.
use crate::token::moved;
use crate::token::TokenLedger;
use crate::Address;
use std::collections::HashMap;
use vstd::prelude::*;

verus! {

/// Why an escrow operation was refused.
#[derive(Clone, Copy, Debug, PartialEq, Eq, Structural)]
pub enum Error {
    AlreadyInitialized,
    NotInitialized,
    NotAuthorized,
    /// The amount is not positive.
    InvalidAmount,
    EscrowNotFound,
    /// The escrow was already released or cancelled.
    NotActive,
    Overflow,
    /// The token refused the transfer.
    TransferFailed,
}

#[derive(Clone, Copy, Debug, PartialEq, Eq, Structural)]
pub enum EscrowStatus {
    Active,
    Released,
    Cancelled,
}

#[derive(Clone, Debug)]
pub struct EscrowState {
    pub escrow_id: u64,
    pub payer: Address,
    pub payee: Address,
    pub amount: i128,
    pub terms_hash: String,
    pub status: EscrowStatus,
}

fn copy_state(s: &EscrowState) -> (c: EscrowState)
    ensures
        c == *s,
{
    EscrowState {
        escrow_id: s.escrow_id,
        payer: s.payer,
        payee: s.payee,
        amount: s.amount,
        terms_hash: s.terms_hash.clone(),
        status: s.status,
    }
}

/// The escrow contract; `id` is its own identity, which holds escrowed funds.
pub struct EscrowVault {
    id: Address,
    admin: Option<Address>,
    token: Address,
    next_id: u64,
    escrows: HashMap<u64, EscrowState>,
}

impl EscrowVault {
    pub closed spec fn id(&self) -> Address {
        self.id
    }

    pub closed spec fn admin(&self) -> Option<Address> {
        self.admin
    }

    pub closed spec fn next_id(&self) -> u64 {
        self.next_id
    }

    pub closed spec fn escrows(&self) -> Map<u64, EscrowState> {
        self.escrows@
    }

    /// The checks of `release_escrow` before the transfer, in order.
    pub open spec fn release_check(&self, caller: Address, escrow_id: u64) -> Option<Error> {
        if !self.escrows().contains_key(escrow_id) {
            Some(Error::EscrowNotFound)
        } else if self.escrows()[escrow_id].status != EscrowStatus::Active {
            Some(Error::NotActive)
        } else {
            match self.admin() {
                None => Some(Error::NotInitialized),
                Some(a) => if caller != a && caller != self.escrows()[escrow_id].payer {
                    Some(Error::NotAuthorized)
                } else {
                    None
                },
            }
        }
    }

    /// The checks of `cancel_escrow` before the transfer, in order.
    pub open spec fn cancel_check(&self, caller: Address, escrow_id: u64) -> Option<Error> {
        match self.admin() {
            None => Some(Error::NotInitialized),
            Some(a) => if caller != a {
                Some(Error::NotAuthorized)
            } else if !self.escrows().contains_key(escrow_id) {
                Some(Error::EscrowNotFound)
            } else if self.escrows()[escrow_id].status != EscrowStatus::Active {
                Some(Error::NotActive)
            } else {
                None
            },
        }
    }

    pub fn new(id: Address) -> (r: Self)
        ensures
            r.id() == id,
            r.admin() is None,
            r.next_id() == 0,
            r.escrows() == Map::<u64, EscrowState>::empty(),
    {
        EscrowVault { id, admin: None, token: id, next_id: 0, escrows: HashMap::new() }
    }

    pub fn init(&mut self, admin: Address, token_address: Address) -> (r: Result<(), Error>)
        ensures
            final(self).id() == old(self).id(),
            final(self).next_id() == old(self).next_id(),
            final(self).escrows() == old(self).escrows(),
            old(self).admin() is Some ==> r == Err::<(), Error>(Error::AlreadyInitialized)
                && final(self).admin() == old(self).admin(),
            old(self).admin() is None ==> r is Ok && final(self).admin() == Some(admin),
    {
        if self.admin.is_some() {
            return Err(Error::AlreadyInitialized);
        }
        self.admin = Some(admin);
        self.token = token_address;
        Ok(())
    }

    /// Moves `amount` from `payer` into escrow for `payee`; returns the id.
    pub fn create_escrow(
        &mut self,
        token: &mut TokenLedger,
        payer: Address,
        payee: Address,
        amount: i128,
        terms_hash: String,
    ) -> (r: Result<u64, Error>)
        requires
            old(token).wf(),
        ensures
            final(token).wf(),
            final(self).id() == old(self).id(),
            final(self).admin() == old(self).admin(),
            r == if amount <= 0 {
                Err(Error::InvalidAmount)
            } else if old(self).admin() is None {
                Err(Error::NotInitialized)
            } else if old(self).next_id() == u64::MAX {
                Err(Error::Overflow)
            } else if old(token).transfer_outcome(payer, old(self).id(), amount) is Err {
                Err(Error::TransferFailed)
            } else {
                Ok(old(self).next_id())
            },
            r is Ok ==> final(self).next_id() == old(self).next_id() + 1
                && final(self).escrows() == old(self).escrows().insert(
                old(self).next_id(),
                EscrowState {
                    escrow_id: old(self).next_id(),
                    payer,
                    payee,
                    amount,
                    terms_hash,
                    status: EscrowStatus::Active,
                },
            ) && final(token).view_balances() == moved(
                old(token).view_balances(),
                payer.0,
                old(self).id().0,
                amount as int,
            ),
            r is Err ==> final(self).next_id() == old(self).next_id() && final(self).escrows()
                == old(self).escrows() && final(token).view_balances()
                == old(token).view_balances(),
    {
        broadcast use vstd::std_specs::hash::group_hash_axioms;

        if amount <= 0 {
            return Err(Error::InvalidAmount);
        }
        if self.admin.is_none() {
            return Err(Error::NotInitialized);
        }
        let escrow_id = self.next_id;
        let next = match escrow_id.checked_add(1) {
            Some(n) => n,
            None => return Err(Error::Overflow),
        };
        match token.transfer(payer, self.id, amount) {
            Err(_) => return Err(Error::TransferFailed),
            Ok(()) => {},
        }
        self.next_id = next;
        self.escrows.insert(
            escrow_id,
            EscrowState { escrow_id, payer, payee, amount, terms_hash, status: EscrowStatus::Active },
        );
        Ok(escrow_id)
    }

    /// Closes an active escrow with status `status`, paying its amount to `to`.
    fn settle(&mut self, token: &mut TokenLedger, escrow_id: u64, status: EscrowStatus, to: Address) -> (r:
        Result<(), Error>)
        requires
            old(token).wf(),
            old(self).escrows().contains_key(escrow_id),
        ensures
            final(token).wf(),
            final(self).id() == old(self).id(),
            final(self).admin() == old(self).admin(),
            final(self).next_id() == old(self).next_id(),
            r == if old(token).transfer_outcome(
                old(self).id(),
                to,
                old(self).escrows()[escrow_id].amount,
            ) is Err {
                Err(Error::TransferFailed)
            } else {
                Ok(())
            },
            r is Ok ==> final(self).escrows() == old(self).escrows().insert(
                escrow_id,
                EscrowState { status, ..old(self).escrows()[escrow_id] },
            ) && final(token).view_balances() == moved(
                old(token).view_balances(),
                old(self).id().0,
                to.0,
                old(self).escrows()[escrow_id].amount as int,
            ),
            r is Err ==> final(self).escrows() == old(self).escrows() && final(token).view_balances() == old(token).view_balances(),
    {
        broadcast use vstd::std_specs::hash::group_hash_axioms;

        let st = match self.escrows.get(&escrow_id) {
            Some(s) => copy_state(s),
            None => return Err(Error::EscrowNotFound),
        };
        match token.transfer(self.id, to, st.amount) {
            Err(_) => return Err(Error::TransferFailed),
            Ok(()) => {},
        }
        self.escrows.insert(escrow_id, EscrowState { status, ..st });
        Ok(())
    }

    /// Pays an active escrow to its payee; the admin or the payer may do so.
    pub fn release_escrow(&mut self, token: &mut TokenLedger, caller: Address, escrow_id: u64) -> (r:
        Result<(), Error>)
        requires
            old(token).wf(),
        ensures
            final(token).wf(),
            final(self).id() == old(self).id(),
            final(self).admin() == old(self).admin(),
            final(self).next_id() == old(self).next_id(),
            r == match old(self).release_check(caller, escrow_id) {
                Some(e) => Err(e),
                None => if old(token).transfer_outcome(
                    old(self).id(),
                    old(self).escrows()[escrow_id].payee,
                    old(self).escrows()[escrow_id].amount,
                ) is Err {
                    Err(Error::TransferFailed)
                } else {
                    Ok(())
                },
            },
            r is Ok ==> final(self).escrows() == old(self).escrows().insert(
                escrow_id,
                EscrowState { status: EscrowStatus::Released, ..old(self).escrows()[escrow_id] },
            ) && final(token).view_balances() == moved(
                old(token).view_balances(),
                old(self).id().0,
                old(self).escrows()[escrow_id].payee.0,
                old(self).escrows()[escrow_id].amount as int,
            ),
            r is Err ==> final(self).escrows() == old(self).escrows() && final(token).view_balances() == old(token).view_balances(),
    {
        broadcast use vstd::std_specs::hash::group_hash_axioms;

        let (payer, payee) = match self.escrows.get(&escrow_id) {
            None => return Err(Error::EscrowNotFound),
            Some(s) => {
                if s.status != EscrowStatus::Active {
                    return Err(Error::NotActive);
                }
                (s.payer, s.payee)
            },
        };
        match self.admin {
            None => return Err(Error::NotInitialized),
            Some(a) => {
                if caller != a && caller != payer {
                    return Err(Error::NotAuthorized);
                }
            },
        }
        self.settle(token, escrow_id, EscrowStatus::Released, payee)
    }

    /// Returns an active escrow's amount to its payer; only the admin may.
    pub fn cancel_escrow(&mut self, token: &mut TokenLedger, admin: Address, escrow_id: u64) -> (r:
        Result<(), Error>)
        requires
            old(token).wf(),
        ensures
            final(token).wf(),
            final(self).id() == old(self).id(),
            final(self).admin() == old(self).admin(),
            final(self).next_id() == old(self).next_id(),
            r == match old(self).cancel_check(admin, escrow_id) {
                Some(e) => Err(e),
                None => if old(token).transfer_outcome(
                    old(self).id(),
                    old(self).escrows()[escrow_id].payer,
                    old(self).escrows()[escrow_id].amount,
                ) is Err {
                    Err(Error::TransferFailed)
                } else {
                    Ok(())
                },
            },
            r is Ok ==> final(self).escrows() == old(self).escrows().insert(
                escrow_id,
                EscrowState { status: EscrowStatus::Cancelled, ..old(self).escrows()[escrow_id] },
            ) && final(token).view_balances() == moved(
                old(token).view_balances(),
                old(self).id().0,
                old(self).escrows()[escrow_id].payer.0,
                old(self).escrows()[escrow_id].amount as int,
            ),
            r is Err ==> final(self).escrows() == old(self).escrows() && final(token).view_balances() == old(token).view_balances(),
    {
        broadcast use vstd::std_specs::hash::group_hash_axioms;

        match self.admin {
            None => return Err(Error::NotInitialized),
            Some(a) => {
                if admin != a {
                    return Err(Error::NotAuthorized);
                }
            },
        }
        let payer = match self.escrows.get(&escrow_id) {
            None => return Err(Error::EscrowNotFound),
            Some(s) => {
                if s.status != EscrowStatus::Active {
                    return Err(Error::NotActive);
                }
                s.payer
            },
        };
        self.settle(token, escrow_id, EscrowStatus::Cancelled, payer)
    }

    /// The state of escrow `escrow_id`.
    pub fn escrow_state(&self, escrow_id: u64) -> (r: Result<EscrowState, Error>)
        ensures
            r == if self.escrows().contains_key(escrow_id) {
                Ok(self.escrows()[escrow_id])
            } else {
                Err(Error::EscrowNotFound)
            },
    {
        broadcast use vstd::std_specs::hash::group_hash_axioms;

        match self.escrows.get(&escrow_id) {
            Some(s) => Ok(copy_state(s)),
            None => Err(Error::EscrowNotFound),
        }
    }
}

} // verus!
