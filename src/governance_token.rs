//! A governance token: admin-minted balances with a tracked total supply.
use crate::Address;
use std::collections::HashMap;
use vstd::prelude::*;

verus! {

#[derive(Clone, Copy, Debug, PartialEq, Eq, Structural)]
pub enum Error {
    NotAuthorized,
    InsufficientBalance,
    InvalidAmount,
    Overflow,
}

#[derive(Clone, Debug)]
pub struct TokenConfig {
    pub name: String,
    pub symbol: String,
    pub decimals: u32,
}

/// The governance token contract.
pub struct GovernanceToken {
    admin: Option<Address>,
    config: Option<TokenConfig>,
    supply: i128,
    balances: HashMap<u64, i128>,
}

impl GovernanceToken {
    pub closed spec fn admin(&self) -> Option<Address> {
        self.admin
    }

    pub closed spec fn supply(&self) -> i128 {
        self.supply
    }

    /// The balance of `owner`; 0 if never credited.
    pub closed spec fn balance(&self, owner: Address) -> i128 {
        if self.balances@.contains_key(owner.0) {
            self.balances@[owner.0]
        } else {
            0
        }
    }

    /// Balances and supply are never negative.
    pub closed spec fn wf(&self) -> bool {
        &&& self.supply >= 0
        &&& forall|a: u64| #[trigger] self.balances@.contains_key(a) ==> self.balances@[a] >= 0
    }

    pub open spec fn admin_check(&self, caller: Address) -> Option<Error> {
        match self.admin() {
            None => Some(Error::NotAuthorized),
            Some(a) => if a != caller {
                Some(Error::NotAuthorized)
            } else {
                None
            },
        }
    }

    pub fn new() -> (r: Self)
        ensures
            r.wf(),
            r.admin() is None,
            r.supply() == 0,
            forall|a: Address| r.balance(a) == 0,
    {
        GovernanceToken { admin: None, config: None, supply: 0, balances: HashMap::new() }
    }

    /// Sets the admin and the token's description once; a second call is
    /// refused with `NotAuthorized`.
    pub fn init(&mut self, admin: Address, config: TokenConfig) -> (r: Result<(), Error>)
        requires
            old(self).wf(),
        ensures
            final(self).wf(),
            final(self).supply() == old(self).supply(),
            forall|a: Address| final(self).balance(a) == old(self).balance(a),
            old(self).admin() is Some ==> r == Err::<(), Error>(Error::NotAuthorized)
                && final(self).admin() == old(self).admin(),
            old(self).admin() is None ==> r is Ok && final(self).admin() == Some(admin),
    {
        if self.admin.is_some() {
            return Err(Error::NotAuthorized);
        }
        self.admin = Some(admin);
        self.config = Some(config);
        Ok(())
    }

    /// The balance of `owner`.
    pub fn balance_of(&self, owner: Address) -> (r: i128)
        ensures
            r == self.balance(owner),
    {
        broadcast use vstd::std_specs::hash::group_hash_axioms;

        match self.balances.get(&owner.0) {
            Some(b) => *b,
            None => 0,
        }
    }

    pub fn total_supply(&self) -> (r: i128)
        ensures
            r == self.supply(),
    {
        self.supply
    }

    /// Creates `amount` tokens for `to`.
    pub fn mint(&mut self, admin: Address, to: Address, amount: i128) -> (r: Result<(), Error>)
        requires
            old(self).wf(),
        ensures
            final(self).wf(),
            final(self).admin() == old(self).admin(),
            r == if amount <= 0 {
                Err(Error::InvalidAmount)
            } else if old(self).admin_check(admin) is Some {
                Err(old(self).admin_check(admin).unwrap())
            } else if old(self).balance(to) + amount > i128::MAX || old(self).supply() + amount
                > i128::MAX {
                Err(Error::Overflow)
            } else {
                Ok(())
            },
            r is Ok ==> final(self).supply() == old(self).supply() + amount && forall|a: Address|
                #[trigger] final(self).balance(a) == if a.0 == to.0 {
                    old(self).balance(a) + amount
                } else {
                    old(self).balance(a) as int
                },
            r is Err ==> final(self).supply() == old(self).supply() && forall|a: Address|
                #[trigger] final(self).balance(a) == old(self).balance(a),
    {
        broadcast use vstd::std_specs::hash::group_hash_axioms;

        if amount <= 0 {
            return Err(Error::InvalidAmount);
        }
        match self.admin {
            None => return Err(Error::NotAuthorized),
            Some(a) => {
                if a != admin {
                    return Err(Error::NotAuthorized);
                }
            },
        }
        let balance = match self.balance_of(to).checked_add(amount) {
            Some(b) => b,
            None => return Err(Error::Overflow),
        };
        let supply = match self.supply.checked_add(amount) {
            Some(s) => s,
            None => return Err(Error::Overflow),
        };
        self.balances.insert(to.0, balance);
        self.supply = supply;
        Ok(())
    }

    /// Destroys `amount` tokens held by `from`.
    pub fn burn(&mut self, admin: Address, from: Address, amount: i128) -> (r: Result<(), Error>)
        requires
            old(self).wf(),
        ensures
            final(self).wf(),
            final(self).admin() == old(self).admin(),
            r == if amount <= 0 {
                Err(Error::InvalidAmount)
            } else if old(self).admin_check(admin) is Some {
                Err(old(self).admin_check(admin).unwrap())
            } else if old(self).balance(from) < amount {
                Err(Error::InsufficientBalance)
            } else if old(self).supply() < amount {
                Err(Error::Overflow)
            } else {
                Ok(())
            },
            r is Ok ==> final(self).supply() == old(self).supply() - amount && forall|a: Address|
                #[trigger] final(self).balance(a) == if a.0 == from.0 {
                    old(self).balance(a) - amount
                } else {
                    old(self).balance(a) as int
                },
            r is Err ==> final(self).supply() == old(self).supply() && forall|a: Address|
                #[trigger] final(self).balance(a) == old(self).balance(a),
    {
        broadcast use vstd::std_specs::hash::group_hash_axioms;

        if amount <= 0 {
            return Err(Error::InvalidAmount);
        }
        match self.admin {
            None => return Err(Error::NotAuthorized),
            Some(a) => {
                if a != admin {
                    return Err(Error::NotAuthorized);
                }
            },
        }
        let balance = self.balance_of(from);
        if balance < amount {
            return Err(Error::InsufficientBalance);
        }
        if self.supply < amount {
            return Err(Error::Overflow);
        }
        self.balances.insert(from.0, balance - amount);
        self.supply = self.supply - amount;
        Ok(())
    }

    /// Moves `amount` from `from` to `to`.
    pub fn transfer(&mut self, from: Address, to: Address, amount: i128) -> (r: Result<(), Error>)
        requires
            old(self).wf(),
        ensures
            final(self).wf(),
            final(self).admin() == old(self).admin(),
            final(self).supply() == old(self).supply(),
            r == if amount <= 0 {
                Err(Error::InvalidAmount)
            } else if old(self).balance(from) < amount {
                Err(Error::InsufficientBalance)
            } else if from != to && old(self).balance(to) + amount > i128::MAX {
                Err(Error::Overflow)
            } else {
                Ok(())
            },
            r is Ok ==> forall|a: Address| #[trigger]
                final(self).balance(a) == if a.0 == from.0 && a.0 != to.0 {
                    old(self).balance(a) - amount
                } else if a.0 == to.0 && a.0 != from.0 {
                    old(self).balance(a) + amount
                } else {
                    old(self).balance(a) as int
                },
            r is Err ==> forall|a: Address| #[trigger] final(self).balance(a) == old(self).balance(a),
    {
        broadcast use vstd::std_specs::hash::group_hash_axioms;

        if amount <= 0 {
            return Err(Error::InvalidAmount);
        }
        let from_balance = self.balance_of(from);
        if from_balance < amount {
            return Err(Error::InsufficientBalance);
        }
        if from == to {
            return Ok(());
        }
        let to_balance = match self.balance_of(to).checked_add(amount) {
            Some(b) => b,
            None => return Err(Error::Overflow),
        };
        self.balances.insert(from.0, from_balance - amount);
        self.balances.insert(to.0, to_balance);
        Ok(())
    }
}

} // verus!
