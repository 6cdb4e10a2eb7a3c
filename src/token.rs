//! The settlement token: balances per identity and transfers between them.
use crate::Address;
use std::collections::HashMap;
use vstd::prelude::*;

verus! {

/// Why a token operation was refused.
#[derive(Clone, Copy, Debug, PartialEq, Eq, Structural)]
pub enum TokenError {
    NegativeAmount,
    InsufficientBalance,
    Overflow,
}

/// Balances of one fungible token, by identity. An identity never seen holds 0.
pub struct TokenLedger {
    balances: HashMap<u64, i128>,
}

/// The balances after moving `amount` from `from` to `to`.
pub open spec fn moved(b: Map<u64, int>, from: u64, to: u64, amount: int) -> Map<u64, int> {
    b.insert(from, b[from] - amount).insert(to, b.insert(from, b[from] - amount)[to] + amount)
}

impl TokenLedger {
    /// The balance of every identity.
    pub closed spec fn view_balances(&self) -> Map<u64, int> {
        Map::new(
            |a: u64| true,
            |a: u64|
                if self.balances@.contains_key(a) {
                    self.balances@[a] as int
                } else {
                    0
                },
        )
    }

    /// The balance of `a`.
    pub open spec fn balance_of(&self, a: Address) -> int {
        self.view_balances()[a.0]
    }

    /// What `transfer(from, to, amount)` returns on this ledger.
    pub open spec fn transfer_outcome(&self, from: Address, to: Address, amount: i128) -> Result<
        (),
        TokenError,
    > {
        if amount < 0 {
            Err(TokenError::NegativeAmount)
        } else if self.balance_of(from) < amount {
            Err(TokenError::InsufficientBalance)
        } else if from != to && self.balance_of(to) + amount > i128::MAX {
            Err(TokenError::Overflow)
        } else {
            Ok(())
        }
    }

    /// No balance is negative.
    pub closed spec fn wf(&self) -> bool {
        forall|a: u64| #[trigger] self.balances@.contains_key(a) ==> self.balances@[a] >= 0
    }

    /// A ledger where every balance is 0.
    pub fn new() -> (r: Self)
        ensures
            r.wf(),
            forall|a: u64| #[trigger] r.view_balances()[a] == 0,
    {
        TokenLedger { balances: HashMap::new() }
    }

    /// A copy of the ledger, on which a series of transfers can be tried and
    /// then kept or dropped as a whole.
    pub(crate) fn snapshot(&self) -> (r: Self)
        ensures
            r.wf() == self.wf(),
            r.view_balances() == self.view_balances(),
    {
        let r = TokenLedger { balances: self.balances.clone() };
        assert(r.view_balances() =~= self.view_balances());
        r
    }

    /// The balance of `a`.
    pub fn balance(&self, a: Address) -> (r: i128)
        ensures
            r == self.balance_of(a),
    {
        broadcast use vstd::std_specs::hash::group_hash_axioms;

        match self.balances.get(&a.0) {
            Some(v) => *v,
            None => 0,
        }
    }

    /// Creates `amount` new tokens held by `to`.
    pub fn mint(&mut self, to: Address, amount: i128) -> (r: Result<(), TokenError>)
        requires
            old(self).wf(),
        ensures
            final(self).wf(),
            r == if amount < 0 {
                Err(TokenError::NegativeAmount)
            } else if old(self).balance_of(to) + amount > i128::MAX {
                Err(TokenError::Overflow)
            } else {
                Ok(())
            },
            r is Ok ==> final(self).view_balances() == old(self).view_balances().insert(
                to.0,
                old(self).balance_of(to) + amount,
            ),
            r is Err ==> final(self).view_balances() == old(self).view_balances(),
    {
        broadcast use vstd::std_specs::hash::group_hash_axioms;

        if amount < 0 {
            return Err(TokenError::NegativeAmount);
        }
        let cur = self.balance(to);
        if cur > i128::MAX - amount {
            return Err(TokenError::Overflow);
        }
        self.balances.insert(to.0, cur + amount);
        assert(self.view_balances() =~= old(self).view_balances().insert(
            to.0,
            old(self).balance_of(to) + amount,
        ));
        Ok(())
    }

    /// Moves `amount` from `from` to `to`; on failure nothing changes.
    pub fn transfer(&mut self, from: Address, to: Address, amount: i128) -> (r: Result<
        (),
        TokenError,
    >)
        requires
            old(self).wf(),
        ensures
            final(self).wf(),
            r == old(self).transfer_outcome(from, to, amount),
            r is Ok ==> final(self).view_balances() == moved(
                old(self).view_balances(),
                from.0,
                to.0,
                amount as int,
            ),
            r is Err ==> final(self).view_balances() == old(self).view_balances(),
    {
        broadcast use vstd::std_specs::hash::group_hash_axioms;

        if amount < 0 {
            return Err(TokenError::NegativeAmount);
        }
        let from_bal = self.balance(from);
        if from_bal < amount {
            return Err(TokenError::InsufficientBalance);
        }
        if from == to {
            assert(self.view_balances() =~= moved(
                old(self).view_balances(),
                from.0,
                to.0,
                amount as int,
            ));
            return Ok(());
        }
        let to_bal = self.balance(to);
        if to_bal > i128::MAX - amount {
            return Err(TokenError::Overflow);
        }
        self.balances.insert(from.0, from_bal - amount);
        self.balances.insert(to.0, to_bal + amount);
        assert(self.view_balances() =~= moved(
            old(self).view_balances(),
            from.0,
            to.0,
            amount as int,
        ));
        Ok(())
    }
}

} // verus!
