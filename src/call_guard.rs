//! An allow-list of cross-contract calls: (source, target, selector) triples.
use crate::Address;
use vstd::prelude::*;

verus! {

#[derive(Clone, Copy, Debug, PartialEq, Eq, Structural)]
pub enum Error {
    AlreadyInitialized,
    NotInitialized,
    NotAuthorized,
    CallDenied,
}

/// A call from `source` to `selector` on `target`.
#[derive(Clone, Debug)]
pub struct PolicyKey {
    pub source: Address,
    pub target: Address,
    pub selector: String,
}

/// The plain value of a policy key.
pub open spec fn key_of(source: Address, target: Address, selector: Seq<char>) -> (u64, u64, Seq<char>) {
    (source.0, target.0, selector)
}

pub open spec fn key_view(k: PolicyKey) -> (u64, u64, Seq<char>) {
    key_of(k.source, k.target, k.selector@)
}

/// Whether `t` is the key of some element of `v`.
pub open spec fn listed(v: Seq<PolicyKey>, t: (u64, u64, Seq<char>)) -> bool {
    exists|j: int| 0 <= j < v.len() && #[trigger] key_view(v[j]) == t
}

fn copy_key(k: &PolicyKey) -> (c: PolicyKey)
    ensures
        c == *k,
{
    PolicyKey { source: k.source, target: k.target, selector: k.selector.clone() }
}

fn same_key(k: &PolicyKey, source: Address, target: Address, selector: &String) -> (r: bool)
    ensures
        r == (key_view(*k) == key_of(source, target, selector@)),
{
    k.source == source && k.target == target && k.selector == *selector
}

/// The call guard contract.
pub struct CrossContractCallGuard {
    admin: Option<Address>,
    allowed: Vec<PolicyKey>,
}

impl CrossContractCallGuard {
    pub closed spec fn admin(&self) -> Option<Address> {
        self.admin
    }

    /// The allowed calls.
    pub closed spec fn policies(&self) -> Set<(u64, u64, Seq<char>)> {
        Set::new(|t: (u64, u64, Seq<char>)| listed(self.allowed@, t))
    }

    pub open spec fn admin_check(&self, caller: Address) -> Option<Error> {
        match self.admin() {
            None => Some(Error::NotInitialized),
            Some(a) => if a != caller {
                Some(Error::NotAuthorized)
            } else {
                None
            },
        }
    }

    pub fn new() -> (r: Self)
        ensures
            r.admin() is None,
            r.policies() == Set::<(u64, u64, Seq<char>)>::empty(),
    {
        let r = CrossContractCallGuard { admin: None, allowed: Vec::new() };
        assert(r.policies() =~= Set::<(u64, u64, Seq<char>)>::empty());
        r
    }

    pub fn init(&mut self, admin: Address) -> (r: Result<(), Error>)
        ensures
            final(self).policies() == old(self).policies(),
            old(self).admin() is Some ==> r == Err::<(), Error>(Error::AlreadyInitialized)
                && final(self).admin() == old(self).admin(),
            old(self).admin() is None ==> r is Ok && final(self).admin() == Some(admin),
    {
        if self.admin.is_some() {
            return Err(Error::AlreadyInitialized);
        }
        self.admin = Some(admin);
        Ok(())
    }

    fn require_admin(&self, caller: Address) -> (r: Result<(), Error>)
        ensures
            r == match self.admin_check(caller) {
                Some(e) => Err(e),
                None => Ok::<(), Error>(()),
            },
    {
        match self.admin {
            None => Err(Error::NotInitialized),
            Some(a) => if a != caller {
                Err(Error::NotAuthorized)
            } else {
                Ok(())
            },
        }
    }

    /// Whether the call is allowed.
    pub fn policy_state(&self, source: Address, target: Address, selector: String) -> (r: bool)
        ensures
            r == self.policies().contains(key_of(source, target, selector@)),
    {
        let mut i: usize = 0;
        while i < self.allowed.len()
            invariant
                i <= self.allowed@.len(),
                forall|j: int| 0 <= j < i ==> key_view(self.allowed@[j]) != key_of(source, target, selector@),
            decreases self.allowed@.len() - i,
        {
            if same_key(&self.allowed[i], source, target, &selector) {
                assert(self.policies().contains(key_of(source, target, selector@)));
                return true;
            }
            i = i + 1;
        }
        false
    }

    /// Allows the call; allowing it again changes nothing.
    pub fn allow_call(&mut self, admin: Address, source: Address, target: Address, selector: String) -> (r:
        Result<(), Error>)
        ensures
            final(self).admin() == old(self).admin(),
            r == match old(self).admin_check(admin) {
                Some(e) => Err(e),
                None => Ok::<(), Error>(()),
            },
            r is Ok ==> final(self).policies() == old(self).policies().insert(
                key_of(source, target, selector@),
            ),
            r is Err ==> final(self).policies() == old(self).policies(),
    {
        match self.require_admin(admin) {
            Err(e) => return Err(e),
            Ok(()) => {},
        }
        let sel = selector.clone();
        if self.policy_state(source, target, sel) {
            assert(self.policies() =~= old(self).policies().insert(key_of(source, target, selector@)));
            return Ok(());
        }
        let ghost before = self.allowed@;
        self.allowed.push(PolicyKey { source, target, selector });
        assert forall|t: (u64, u64, Seq<char>)| #[trigger] listed(self.allowed@, t) == (listed(before, t) || t == key_of(source, target, selector@)) by {
            if listed(before, t) {
                let i = choose|i: int| 0 <= i < before.len() && #[trigger] key_view(before[i]) == t;
                assert(key_view(self.allowed@[i]) == t);
            }
            if t == key_of(source, target, selector@) {
                assert(key_view(self.allowed@[before.len() as int]) == t);
            }
            if listed(self.allowed@, t) {
                let i = choose|i: int| 0 <= i < self.allowed@.len() && #[trigger] key_view(self.allowed@[i]) == t;
                if i < before.len() {
                    assert(key_view(before[i]) == t);
                }
            }
        }
        assert(self.policies() =~= old(self).policies().insert(key_of(source, target, selector@)));
        Ok(())
    }

    /// Removes the call from the allow-list.
    pub fn deny_call(&mut self, admin: Address, source: Address, target: Address, selector: String) -> (r:
        Result<(), Error>)
        ensures
            final(self).admin() == old(self).admin(),
            r == match old(self).admin_check(admin) {
                Some(e) => Err(e),
                None => Ok::<(), Error>(()),
            },
            r is Ok ==> final(self).policies() == old(self).policies().remove(
                key_of(source, target, selector@),
            ),
            r is Err ==> final(self).policies() == old(self).policies(),
    {
        match self.require_admin(admin) {
            Err(e) => return Err(e),
            Ok(()) => {},
        }
        let ghost k = key_of(source, target, selector@);
        let mut kept: Vec<PolicyKey> = Vec::new();
        let mut i: usize = 0;
        assert(self.allowed@.take(0) =~= Seq::<PolicyKey>::empty());
        while i < self.allowed.len()
            invariant
                i <= self.allowed@.len(),
                k == key_of(source, target, selector@),
                forall|t: (u64, u64, Seq<char>)| #[trigger] listed(kept@, t) <==> (t != k && listed(self.allowed@.take(i as int), t)),
            decreases self.allowed@.len() - i,
        {
            let ghost prev = kept@;
            let ghost cur = self.allowed@[i as int];
            let ghost pre = self.allowed@.take(i as int);
            let ghost post = self.allowed@.take(i + 1);
            assert(post == pre.push(cur));
            let same = same_key(&self.allowed[i], source, target, &selector);
            if !same {
                kept.push(copy_key(&self.allowed[i]));
                assert(kept@ == prev.push(cur));
            }
            assert(key_view(cur) != k ==> kept@ == prev.push(cur));
            assert(key_view(cur) == k ==> kept@ == prev);
            assert forall|t: (u64, u64, Seq<char>)| #[trigger] listed(kept@, t) <==> (t != k && listed(post, t)) by {
                if listed(kept@, t) {
                    let j = choose|j: int| 0 <= j < kept@.len() && #[trigger] key_view(kept@[j]) == t;
                    if j < prev.len() {
                        assert(key_view(prev[j]) == t);
                        assert(listed(prev, t));
                        let m = choose|m: int| 0 <= m < pre.len() && #[trigger] key_view(pre[m]) == t;
                        assert(key_view(post[m]) == t);
                    } else {
                        assert(key_view(post[i as int]) == t);
                    }
                }
                if t != k && listed(post, t) {
                    let j = choose|j: int| 0 <= j < post.len() && #[trigger] key_view(post[j]) == t;
                    if j < i {
                        assert(key_view(pre[j]) == t);
                        assert(listed(pre, t));
                        assert(listed(prev, t));
                        let m = choose|m: int| 0 <= m < prev.len() && #[trigger] key_view(prev[m]) == t;
                        assert(key_view(kept@[m]) == t);
                    } else {
                        assert(key_view(kept@[prev.len() as int]) == t);
                    }
                }
            }
            i = i + 1;
        }
        assert(self.allowed@.take(self.allowed@.len() as int) == self.allowed@);
        self.allowed = kept;
        assert(self.policies() =~= old(self).policies().remove(k));
        Ok(())
    }

    /// Succeeds exactly when the call is allowed.
    pub fn assert_allowed(&self, source: Address, target: Address, selector: String) -> (r: Result<(), Error>)
        ensures
            r == if self.policies().contains(key_of(source, target, selector@)) {
                Ok::<(), Error>(())
            } else {
                Err(Error::CallDenied)
            },
    {
        if !self.policy_state(source, target, selector) {
            return Err(Error::CallDenied);
        }
        Ok(())
    }
}

} // verus!
