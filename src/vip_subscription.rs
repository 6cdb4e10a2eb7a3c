//! Paid subscription plans: defining plans, subscribing and renewing.
use crate::token::moved;
use crate::token::TokenLedger;
use crate::Address;
use std::collections::HashMap;
use vstd::prelude::*;

verus! {

/// How long, in ledgers, plans and subscriptions are kept alive.
pub const PERSISTENT_BUMP_LEDGERS: u32 = 518_400;

#[derive(Clone, Copy, Debug, PartialEq, Eq, Structural)]
pub enum Error {
    AlreadyInitialized,
    NotInitialized,
    NotAuthorized,
    PlanNotFound,
    PlanAlreadyExists,
    AlreadySubscribed,
    InvalidInput,
    Overflow,
    /// The token refused the payment.
    TransferFailed,
}

#[derive(Clone, Copy, Debug)]
pub struct PlanDefinition {
    pub price: i128,
    pub duration: u64,
    pub benefits_hash: [u8; 32],
}

#[derive(Clone, Copy, Debug, PartialEq, Eq, Structural)]
pub struct SubscriptionRecord {
    pub plan_id: u32,
    pub expires_at: u64,
}

#[derive(Clone, Copy, Debug, PartialEq, Eq, Structural)]
pub struct SubscriptionStatus {
    pub has_subscription: bool,
    pub plan_id: u32,
    pub expires_at: u64,
    pub is_active: bool,
}

/// The status of a subscription record at `now`.
pub open spec fn status_at(record: Option<SubscriptionRecord>, now: u64) -> SubscriptionStatus {
    match record {
        None => SubscriptionStatus { has_subscription: false, plan_id: 0, expires_at: 0, is_active: false },
        Some(r) => SubscriptionStatus {
            has_subscription: true,
            plan_id: r.plan_id,
            expires_at: r.expires_at,
            is_active: r.expires_at > now,
        },
    }
}

/// The subscription contract; payments go to the treasury.
pub struct VipSubscription {
    admin: Option<Address>,
    treasury: Address,
    plans: HashMap<u32, PlanDefinition>,
    subscriptions: HashMap<u64, SubscriptionRecord>,
}

impl VipSubscription {
    pub closed spec fn admin(&self) -> Option<Address> {
        self.admin
    }

    pub closed spec fn treasury(&self) -> Address {
        self.treasury
    }

    pub closed spec fn plans(&self) -> Map<u32, PlanDefinition> {
        self.plans@
    }

    pub closed spec fn subscription(&self, user: Address) -> Option<SubscriptionRecord> {
        if self.subscriptions@.contains_key(user.0) {
            Some(self.subscriptions@[user.0])
        } else {
            None
        }
    }

    /// Every plan has a positive price and duration.
    pub closed spec fn wf(&self) -> bool {
        forall|id: u32| #[trigger]
            self.plans@.contains_key(id) ==> self.plans@[id].price > 0 && self.plans@[id].duration > 0
    }

    /// The checks of `subscribe` and `renew` before the subscription is read.
    pub open spec fn plan_check(&self, plan_id: u32) -> Option<Error> {
        if self.admin() is None {
            Some(Error::NotInitialized)
        } else if !self.plans().contains_key(plan_id) {
            Some(Error::PlanNotFound)
        } else {
            None
        }
    }

    pub fn new() -> (r: Self)
        ensures
            r.wf(),
            r.admin() is None,
            r.plans() == Map::<u32, PlanDefinition>::empty(),
            forall|u: Address| r.subscription(u) is None,
    {
        VipSubscription {
            admin: None,
            treasury: Address(0),
            plans: HashMap::new(),
            subscriptions: HashMap::new(),
        }
    }

    pub fn init(&mut self, admin: Address, treasury_contract: Address) -> (r: Result<(), Error>)
        requires
            old(self).wf(),
        ensures
            final(self).wf(),
            final(self).plans() == old(self).plans(),
            forall|u: Address| final(self).subscription(u) == old(self).subscription(u),
            old(self).admin() is Some ==> r == Err::<(), Error>(Error::AlreadyInitialized)
                && final(self).admin() == old(self).admin() && final(self).treasury() == old(
                self,
            ).treasury(),
            old(self).admin() is None ==> r is Ok && final(self).admin() == Some(admin)
                && final(self).treasury() == treasury_contract,
    {
        if self.admin.is_some() {
            return Err(Error::AlreadyInitialized);
        }
        self.admin = Some(admin);
        self.treasury = treasury_contract;
        Ok(())
    }

    /// Defines plan `plan_id` once, with a positive price and duration.
    pub fn define_plan(
        &mut self,
        admin: Address,
        plan_id: u32,
        price: i128,
        duration: u64,
        benefits_hash: [u8; 32],
    ) -> (r: Result<(), Error>)
        requires
            old(self).wf(),
        ensures
            final(self).wf(),
            final(self).admin() == old(self).admin(),
            final(self).treasury() == old(self).treasury(),
            forall|u: Address| final(self).subscription(u) == old(self).subscription(u),
            r == match old(self).admin() {
                None => Err(Error::NotInitialized),
                Some(a) => if a != admin {
                    Err(Error::NotAuthorized)
                } else if price <= 0 || duration == 0 {
                    Err(Error::InvalidInput)
                } else if old(self).plans().contains_key(plan_id) {
                    Err(Error::PlanAlreadyExists)
                } else {
                    Ok(())
                },
            },
            r is Ok ==> final(self).plans() == old(self).plans().insert(
                plan_id,
                PlanDefinition { price, duration, benefits_hash },
            ),
            r is Err ==> final(self).plans() == old(self).plans(),
    {
        broadcast use vstd::std_specs::hash::group_hash_axioms;

        match self.admin {
            None => return Err(Error::NotInitialized),
            Some(a) => {
                if a != admin {
                    return Err(Error::NotAuthorized);
                }
            },
        }
        if price <= 0 || duration == 0 {
            return Err(Error::InvalidInput);
        }
        if self.plans.contains_key(&plan_id) {
            return Err(Error::PlanAlreadyExists);
        }
        self.plans.insert(plan_id, PlanDefinition { price, duration, benefits_hash });
        Ok(())
    }

    fn get_plan(&self, plan_id: u32) -> (r: Option<PlanDefinition>)
        ensures
            r == if self.plans().contains_key(plan_id) {
                Some(self.plans()[plan_id])
            } else {
                None
            },
    {
        broadcast use vstd::std_specs::hash::group_hash_axioms;

        match self.plans.get(&plan_id) {
            Some(p) => Some(*p),
            None => None,
        }
    }

    fn get_subscription(&self, user: Address) -> (r: Option<SubscriptionRecord>)
        ensures
            r == self.subscription(user),
    {
        broadcast use vstd::std_specs::hash::group_hash_axioms;

        match self.subscriptions.get(&user.0) {
            Some(s) => Some(*s),
            None => None,
        }
    }

    /// Subscribes `user` to a plan at `now`, paying its price to the
    /// treasury; an active subscription must have expired first.
    pub fn subscribe(&mut self, token: &mut TokenLedger, user: Address, plan_id: u32, now: u64) -> (r:
        Result<(), Error>)
        requires
            old(self).wf(),
            old(token).wf(),
        ensures
            final(self).wf(),
            final(token).wf(),
            final(self).admin() == old(self).admin(),
            final(self).treasury() == old(self).treasury(),
            final(self).plans() == old(self).plans(),
            r == match old(self).plan_check(plan_id) {
                Some(e) => Err(e),
                None => {
                    let plan = old(self).plans()[plan_id];
                    if old(self).subscription(user) matches Some(s) && s.expires_at > now {
                        Err(Error::AlreadySubscribed)
                    } else if now + plan.duration > u64::MAX {
                        Err(Error::Overflow)
                    } else if old(token).transfer_outcome(user, old(self).treasury(), plan.price) is Err {
                        Err(Error::TransferFailed)
                    } else {
                        Ok(())
                    }
                },
            },
            forall|u: Address| #[trigger]
                final(self).subscription(u) == if r is Ok && u.0 == user.0 {
                    Some(
                        SubscriptionRecord {
                            plan_id,
                            expires_at: (now + old(self).plans()[plan_id].duration) as u64,
                        },
                    )
                } else {
                    old(self).subscription(u)
                },
            r is Ok ==> final(token).view_balances() == moved(
                old(token).view_balances(),
                user.0,
                old(self).treasury().0,
                old(self).plans()[plan_id].price as int,
            ),
            r is Err ==> final(token).view_balances() == old(token).view_balances(),
    {
        broadcast use vstd::std_specs::hash::group_hash_axioms;

        if self.admin.is_none() {
            return Err(Error::NotInitialized);
        }
        let plan = match self.get_plan(plan_id) {
            None => return Err(Error::PlanNotFound),
            Some(p) => p,
        };
        match self.get_subscription(user) {
            Some(existing) => {
                if existing.expires_at > now {
                    return Err(Error::AlreadySubscribed);
                }
            },
            None => {},
        }
        let expires_at = match now.checked_add(plan.duration) {
            Some(t) => t,
            None => return Err(Error::Overflow),
        };
        match token.transfer(user, self.treasury, plan.price) {
            Err(_) => return Err(Error::TransferFailed),
            Ok(()) => {},
        }
        self.subscriptions.insert(user.0, SubscriptionRecord { plan_id, expires_at });
        Ok(())
    }

    /// Renews `user`'s subscription onto a plan at `now`: the plan's duration
    /// is added to the current expiry if still active, else to `now`.
    pub fn renew(&mut self, token: &mut TokenLedger, user: Address, plan_id: u32, now: u64) -> (r: Result<
        (),
        Error,
    >)
        requires
            old(self).wf(),
            old(token).wf(),
        ensures
            final(self).wf(),
            final(token).wf(),
            final(self).admin() == old(self).admin(),
            final(self).treasury() == old(self).treasury(),
            final(self).plans() == old(self).plans(),
            r == match old(self).plan_check(plan_id) {
                Some(e) => Err(e),
                None => match old(self).subscription(user) {
                    None => Err(Error::PlanNotFound),
                    Some(s) => {
                        let plan = old(self).plans()[plan_id];
                        let base = if s.expires_at > now {
                            s.expires_at
                        } else {
                            now
                        };
                        if base + plan.duration > u64::MAX {
                            Err(Error::Overflow)
                        } else if old(token).transfer_outcome(
                            user,
                            old(self).treasury(),
                            plan.price,
                        ) is Err {
                            Err(Error::TransferFailed)
                        } else {
                            Ok(())
                        }
                    },
                },
            },
            forall|u: Address| #[trigger]
                final(self).subscription(u) == if r is Ok && u.0 == user.0 {
                    let s = old(self).subscription(u).unwrap();
                    let base = if s.expires_at > now {
                        s.expires_at
                    } else {
                        now
                    };
                    Some(
                        SubscriptionRecord {
                            plan_id,
                            expires_at: (base + old(self).plans()[plan_id].duration) as u64,
                        },
                    )
                } else {
                    old(self).subscription(u)
                },
            r is Ok ==> final(token).view_balances() == moved(
                old(token).view_balances(),
                user.0,
                old(self).treasury().0,
                old(self).plans()[plan_id].price as int,
            ),
            r is Err ==> final(token).view_balances() == old(token).view_balances(),
    {
        broadcast use vstd::std_specs::hash::group_hash_axioms;

        if self.admin.is_none() {
            return Err(Error::NotInitialized);
        }
        let plan = match self.get_plan(plan_id) {
            None => return Err(Error::PlanNotFound),
            Some(p) => p,
        };
        let existing = match self.get_subscription(user) {
            None => return Err(Error::PlanNotFound),
            Some(s) => s,
        };
        let base = if existing.expires_at > now {
            existing.expires_at
        } else {
            now
        };
        let expires_at = match base.checked_add(plan.duration) {
            Some(t) => t,
            None => return Err(Error::Overflow),
        };
        match token.transfer(user, self.treasury, plan.price) {
            Err(_) => return Err(Error::TransferFailed),
            Ok(()) => {},
        }
        self.subscriptions.insert(user.0, SubscriptionRecord { plan_id, expires_at });
        Ok(())
    }

    /// The subscription of `user` as seen at `now`.
    pub fn status_of(&self, user: Address, now: u64) -> (r: SubscriptionStatus)
        ensures
            r == status_at(self.subscription(user), now),
    {
        match self.get_subscription(user) {
            None => SubscriptionStatus { has_subscription: false, plan_id: 0, expires_at: 0, is_active: false },
            Some(record) => SubscriptionStatus {
                has_subscription: true,
                plan_id: record.plan_id,
                expires_at: record.expires_at,
                is_active: record.expires_at > now,
            },
        }
    }
}

} // verus!
