//! Single-use nonces per account and purpose, issued in sequence.
use crate::Address;
use vstd::prelude::*;

verus! {

/// Why a nonce operation was refused.
#[derive(Clone, Copy, Debug, PartialEq, Eq, Structural)]
pub enum Error {
    AlreadyInitialized,
    NotInitialized,
    NotAuthorized,
    /// The purpose is empty.
    InvalidPurpose,
    NonceRevoked,
    NonceAlreadyUsed,
    /// The nonce was never issued.
    NonceNotFound,
    Overflow,
}

/// The next nonce of an account for a purpose, as written.
pub struct Counter {
    pub account: Address,
    pub purpose: String,
    pub next: u64,
}

/// A nonce consumed by an account for a purpose.
pub struct UsedNonce {
    pub account: Address,
    pub purpose: String,
    pub nonce: u64,
}

/// A nonce of an account revoked for every purpose.
#[derive(Clone, Copy, Debug, PartialEq, Eq, Structural)]
pub struct RevokedNonce {
    pub account: Address,
    pub nonce: u64,
}

/// The next nonce last written for the account and purpose; 0 if none.
pub open spec fn next_in(log: Seq<Counter>, account: Address, purpose: Seq<char>) -> u64
    decreases log.len(),
{
    if log.len() == 0 {
        0
    } else if log.last().account == account && log.last().purpose@ == purpose {
        log.last().next
    } else {
        next_in(log.drop_last(), account, purpose)
    }
}

pub open spec fn used_in(log: Seq<UsedNonce>, account: Address, purpose: Seq<char>, nonce: u64) -> bool {
    exists|i: int|
        0 <= i < log.len() && #[trigger] log[i].account == account && log[i].purpose@ == purpose
            && log[i].nonce == nonce
}

/// The session nonce contract.
pub struct SessionNonceManagerContract {
    admin: Option<Address>,
    counters: Vec<Counter>,
    used: Vec<UsedNonce>,
    revoked: Vec<RevokedNonce>,
}

impl SessionNonceManagerContract {
    pub closed spec fn admin(&self) -> Option<Address> {
        self.admin
    }

    /// The next nonce to issue to `account` for `purpose`.
    pub closed spec fn next_nonce(&self, account: Address, purpose: Seq<char>) -> u64 {
        next_in(self.counters@, account, purpose)
    }

    pub closed spec fn is_used(&self, account: Address, purpose: Seq<char>, nonce: u64) -> bool {
        used_in(self.used@, account, purpose, nonce)
    }

    pub closed spec fn is_revoked(&self, account: Address, nonce: u64) -> bool {
        self.revoked@.contains((RevokedNonce { account, nonce }))
    }

    /// Whether a nonce is issued, unused and not revoked.
    pub open spec fn valid(&self, account: Address, nonce: u64, purpose: Seq<char>) -> bool {
        nonce < self.next_nonce(account, purpose) && !self.is_used(account, purpose, nonce)
            && !self.is_revoked(account, nonce)
    }

    pub fn new() -> (r: Self)
        ensures
            r.admin() is None,
            forall|a: Address, p: Seq<char>| r.next_nonce(a, p) == 0,
            forall|a: Address, p: Seq<char>, n: u64| !r.is_used(a, p, n),
            forall|a: Address, n: u64| !r.is_revoked(a, n),
    {
        SessionNonceManagerContract {
            admin: None,
            counters: Vec::new(),
            used: Vec::new(),
            revoked: Vec::new(),
        }
    }

    pub fn init(&mut self, admin: Address) -> (r: Result<(), Error>)
        ensures
            forall|a: Address, p: Seq<char>| final(self).next_nonce(a, p) == old(self).next_nonce(a, p),
            forall|a: Address, p: Seq<char>, n: u64|
                final(self).is_used(a, p, n) == old(self).is_used(a, p, n),
            forall|a: Address, n: u64| final(self).is_revoked(a, n) == old(self).is_revoked(a, n),
            old(self).admin() is Some ==> r == Err::<(), Error>(Error::AlreadyInitialized)
                && final(self).admin() == old(self).admin(),
            old(self).admin() is None ==> r is Ok && final(self).admin() == Some(admin),
    {
        if self.admin.is_some() {
            return Err(Error::AlreadyInitialized);
        }
        self.admin = Some(admin);
        Ok(())
    }

    fn find_next(&self, account: Address, purpose: &String) -> (r: u64)
        ensures
            r == self.next_nonce(account, purpose@),
    {
        let mut i: usize = self.counters.len();
        assert(self.counters@.take(i as int) == self.counters@);
        while i > 0
            invariant
                i <= self.counters@.len(),
                next_in(self.counters@, account, purpose@) == next_in(
                    self.counters@.take(i as int),
                    account,
                    purpose@,
                ),
            decreases i,
        {
            let ghost pre = self.counters@.take(i as int);
            assert(pre.drop_last() == self.counters@.take(i - 1));
            let c = &self.counters[i - 1];
            if c.account == account && c.purpose == *purpose {
                return c.next;
            }
            i = i - 1;
        }
        0
    }

    fn find_used(&self, account: Address, purpose: &String, nonce: u64) -> (r: bool)
        ensures
            r == self.is_used(account, purpose@, nonce),
    {
        let mut i: usize = 0;
        while i < self.used.len()
            invariant
                i <= self.used@.len(),
                forall|j: int|
                    0 <= j < i ==> !(#[trigger] self.used@[j].account == account
                        && self.used@[j].purpose@ == purpose@ && self.used@[j].nonce == nonce),
            decreases self.used@.len() - i,
        {
            let u = &self.used[i];
            if u.account == account && u.nonce == nonce && u.purpose == *purpose {
                return true;
            }
            i = i + 1;
        }
        false
    }

    fn find_revoked(&self, account: Address, nonce: u64) -> (r: bool)
        ensures
            r == self.is_revoked(account, nonce),
    {
        let mut i: usize = 0;
        while i < self.revoked.len()
            invariant
                i <= self.revoked@.len(),
                forall|j: int| 0 <= j < i ==> self.revoked@[j] != (RevokedNonce { account, nonce }),
            decreases self.revoked@.len() - i,
        {
            if self.revoked[i] == (RevokedNonce { account, nonce }) {
                assert(self.revoked@[i as int] == (RevokedNonce { account, nonce }));
                return true;
            }
            i = i + 1;
        }
        false
    }

    /// Issues the next nonce of `account` for a non-empty `purpose`.
    pub fn issue_nonce(&mut self, account: Address, purpose: String) -> (r: Result<u64, Error>)
        ensures
            final(self).admin() == old(self).admin(),
            forall|a: Address, p: Seq<char>, n: u64|
                final(self).is_used(a, p, n) == old(self).is_used(a, p, n),
            forall|a: Address, n: u64| final(self).is_revoked(a, n) == old(self).is_revoked(a, n),
            r == if purpose@.len() == 0 {
                Err(Error::InvalidPurpose)
            } else if old(self).next_nonce(account, purpose@) == u64::MAX {
                Err(Error::Overflow)
            } else {
                Ok(old(self).next_nonce(account, purpose@))
            },
            forall|a: Address, p: Seq<char>| #[trigger]
                final(self).next_nonce(a, p) == if r is Ok && a == account && p == purpose@ {
                    (old(self).next_nonce(a, p) + 1) as u64
                } else {
                    old(self).next_nonce(a, p)
                },
    {
        if purpose.as_str().is_empty() {
            return Err(Error::InvalidPurpose);
        }
        let nonce = self.find_next(account, &purpose);
        let next = match nonce.checked_add(1) {
            Some(n) => n,
            None => return Err(Error::Overflow),
        };
        let ghost before = self.counters@;
        self.counters.push(Counter { account, purpose, next });
        assert(self.counters@.drop_last() == before);
        Ok(nonce)
    }

    /// `account` consumes an issued nonce for `purpose`, once.
    pub fn consume_nonce(&mut self, account: Address, nonce: u64, purpose: String) -> (r: Result<
        (),
        Error,
    >)
        ensures
            final(self).admin() == old(self).admin(),
            forall|a: Address, p: Seq<char>| final(self).next_nonce(a, p) == old(self).next_nonce(a, p),
            forall|a: Address, n: u64| final(self).is_revoked(a, n) == old(self).is_revoked(a, n),
            r == if purpose@.len() == 0 {
                Err(Error::InvalidPurpose)
            } else if old(self).is_revoked(account, nonce) {
                Err(Error::NonceRevoked)
            } else if old(self).is_used(account, purpose@, nonce) {
                Err(Error::NonceAlreadyUsed)
            } else if nonce >= old(self).next_nonce(account, purpose@) {
                Err(Error::NonceNotFound)
            } else {
                Ok(())
            },
            forall|a: Address, p: Seq<char>, n: u64| #[trigger]
                final(self).is_used(a, p, n) == (old(self).is_used(a, p, n) || (r is Ok && a
                    == account && p == purpose@ && n == nonce)),
    {
        if purpose.as_str().is_empty() {
            return Err(Error::InvalidPurpose);
        }
        if self.find_revoked(account, nonce) {
            return Err(Error::NonceRevoked);
        }
        if self.find_used(account, &purpose, nonce) {
            return Err(Error::NonceAlreadyUsed);
        }
        if nonce >= self.find_next(account, &purpose) {
            return Err(Error::NonceNotFound);
        }
        let ghost before = self.used@;
        let ghost p = purpose@;
        self.used.push(UsedNonce { account, purpose, nonce });
        assert forall|a: Address, q: Seq<char>, n: u64| #[trigger]
            self.is_used(a, q, n) == (old(self).is_used(a, q, n) || (a == account && q == p && n
                == nonce)) by {
            if used_in(before, a, q, n) {
                let i = choose|i: int|
                    0 <= i < before.len() && #[trigger] before[i].account == a && before[i].purpose@
                        == q && before[i].nonce == n;
                assert(self.used@[i] == before[i]);
            }
            if a == account && q == p && n == nonce {
                assert(self.used@[before.len() as int].account == a);
            }
            if used_in(self.used@, a, q, n) {
                let i = choose|i: int|
                    0 <= i < self.used@.len() && #[trigger] self.used@[i].account == a
                        && self.used@[i].purpose@ == q && self.used@[i].nonce == n;
                if i < before.len() {
                    assert(before[i] == self.used@[i]);
                }
            }
        }
        Ok(())
    }

    /// Whether the nonce is issued, unused and not revoked.
    pub fn is_nonce_valid(&self, account: Address, nonce: u64, purpose: String) -> (r: bool)
        ensures
            r == self.valid(account, nonce, purpose@),
    {
        if nonce >= self.find_next(account, &purpose) {
            return false;
        }
        let used = self.find_used(account, &purpose, nonce);
        let revoked = self.find_revoked(account, nonce);
        !used && !revoked
    }

    /// The admin revokes a nonce of `account` for every purpose.
    pub fn revoke_nonce(&mut self, admin: Address, account: Address, nonce: u64) -> (r: Result<
        (),
        Error,
    >)
        ensures
            final(self).admin() == old(self).admin(),
            forall|a: Address, p: Seq<char>| final(self).next_nonce(a, p) == old(self).next_nonce(a, p),
            forall|a: Address, p: Seq<char>, n: u64|
                final(self).is_used(a, p, n) == old(self).is_used(a, p, n),
            r == match old(self).admin() {
                None => Err(Error::NotInitialized),
                Some(x) => if x != admin {
                    Err(Error::NotAuthorized)
                } else {
                    Ok(())
                },
            },
            forall|a: Address, n: u64| #[trigger]
                final(self).is_revoked(a, n) == (old(self).is_revoked(a, n) || (r is Ok && a
                    == account && n == nonce)),
    {
        match self.admin {
            None => return Err(Error::NotInitialized),
            Some(x) => {
                if x != admin {
                    return Err(Error::NotAuthorized);
                }
            },
        }
        let ghost before = self.revoked@;
        self.revoked.push(RevokedNonce { account, nonce });
        assert forall|a: Address, n: u64| #[trigger]
            self.is_revoked(a, n) == (old(self).is_revoked(a, n) || (a == account && n == nonce)) by {
            if before.contains(RevokedNonce { account: a, nonce: n }) {
                let i = choose|i: int| 0 <= i < before.len() && before[i] == (RevokedNonce { account: a, nonce: n });
                assert(self.revoked@[i] == before[i]);
            }
            if a == account && n == nonce {
                assert(self.revoked@[before.len() as int] == (RevokedNonce { account: a, nonce: n }));
            }
            if self.revoked@.contains(RevokedNonce { account: a, nonce: n }) {
                let i = choose|i: int| 0 <= i < self.revoked@.len() && self.revoked@[i] == (RevokedNonce { account: a, nonce: n });
                if i < before.len() {
                    assert(before[i] == self.revoked@[i]);
                }
            }
        }
        Ok(())
    }
}

} // verus!
