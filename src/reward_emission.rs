//! Rewards emitted per epoch from a pool, and claimed once per user and epoch.
use crate::token::moved;
use crate::token::TokenLedger;
use crate::Address;
use vstd::prelude::*;

verus! {

/// Why an emission operation was refused.
#[derive(Clone, Copy, Debug, PartialEq, Eq, Structural)]
pub enum Error {
    AlreadyInitialized,
    NotInitialized,
    NotAuthorized,
    /// The rewards or the epoch duration are not positive.
    InvalidConfig,
    ScheduleNotFound,
    ScheduleInactive,
    EpochNotComplete,
    InvalidAmount,
    AlreadyClaimed,
    Overflow,
    TransferFailed,
}

#[derive(Clone, Debug)]
pub struct EmissionConfig {
    pub schedule_id: String,
    pub rewards_per_epoch: i128,
    pub epoch_duration: u64,
    pub token: Address,
    pub active: bool,
}

#[derive(Clone, Copy, Debug, PartialEq, Eq, Structural)]
pub struct EmissionEpochState {
    pub current_epoch: u64,
    pub epoch_start_time: u64,
    pub total_emitted: i128,
}

/// A write of a schedule's configuration and epoch state.
pub struct ScheduleWrite {
    pub schedule_id: String,
    pub config: EmissionConfig,
    pub state: EmissionEpochState,
}

/// A reward claimed by a user for an epoch of a schedule.
pub struct Claim {
    pub schedule_id: String,
    pub epoch_id: u64,
    pub user: Address,
}

/// A schedule as plain values: rewards per epoch, epoch duration, whether
/// active, and its epoch state.
pub type ScheduleView = (i128, u64, bool, EmissionEpochState);

pub open spec fn schedule_in(log: Seq<ScheduleWrite>, schedule_id: Seq<char>) -> Option<ScheduleView>
    decreases log.len(),
{
    if log.len() == 0 {
        None
    } else if log.last().schedule_id@ == schedule_id {
        let w = log.last();
        Some((w.config.rewards_per_epoch, w.config.epoch_duration, w.config.active, w.state))
    } else {
        schedule_in(log.drop_last(), schedule_id)
    }
}

pub open spec fn claimed_in(log: Seq<Claim>, schedule_id: Seq<char>, epoch_id: u64, user: Address) -> bool {
    exists|i: int|
        0 <= i < log.len() && #[trigger] log[i].user == user && log[i].epoch_id == epoch_id
            && log[i].schedule_id@ == schedule_id
}

fn copy_config(c: &EmissionConfig) -> (r: EmissionConfig)
    ensures
        r == *c,
{
    EmissionConfig {
        schedule_id: c.schedule_id.clone(),
        rewards_per_epoch: c.rewards_per_epoch,
        epoch_duration: c.epoch_duration,
        token: c.token,
        active: c.active,
    }
}

/// The emission contract; `id` is its own identity, which holds emitted
/// rewards until claimed.
pub struct DailyRewardEmission {
    id: Address,
    admin: Option<Address>,
    reward_pool: Address,
    schedules: Vec<ScheduleWrite>,
    claims: Vec<Claim>,
}

impl DailyRewardEmission {
    pub closed spec fn id(&self) -> Address {
        self.id
    }

    pub closed spec fn admin(&self) -> Option<Address> {
        self.admin
    }

    /// Where emitted rewards come from.
    pub closed spec fn reward_pool(&self) -> Address {
        self.reward_pool
    }

    pub closed spec fn schedule(&self, schedule_id: Seq<char>) -> Option<ScheduleView> {
        schedule_in(self.schedules@, schedule_id)
    }

    pub closed spec fn claimed(&self, schedule_id: Seq<char>, epoch_id: u64, user: Address) -> bool {
        claimed_in(self.claims@, schedule_id, epoch_id, user)
    }

    pub open spec fn admin_check(&self, caller: Address) -> Option<Error> {
        match self.admin() {
            None => Some(Error::NotInitialized),
            Some(a) => if a != caller {
                Some(Error::NotAuthorized)
            } else {
                None
            },
        }
    }

    pub fn new(id: Address) -> (r: Self)
        ensures
            r.id() == id,
            r.admin() is None,
            forall|s: Seq<char>| r.schedule(s) is None,
            forall|s: Seq<char>, e: u64, u: Address| !r.claimed(s, e, u),
    {
        DailyRewardEmission { id, admin: None, reward_pool: id, schedules: Vec::new(), claims: Vec::new() }
    }

    pub fn init(&mut self, admin: Address, reward_pool_contract: Address) -> (r: Result<(), Error>)
        ensures
            final(self).id() == old(self).id(),
            forall|s: Seq<char>| final(self).schedule(s) == old(self).schedule(s),
            forall|s: Seq<char>, e: u64, u: Address|
                final(self).claimed(s, e, u) == old(self).claimed(s, e, u),
            old(self).admin() is Some ==> r == Err::<(), Error>(Error::AlreadyInitialized)
                && final(self).admin() == old(self).admin() && final(self).reward_pool() == old(
                self,
            ).reward_pool(),
            old(self).admin() is None ==> r is Ok && final(self).admin() == Some(admin)
                && final(self).reward_pool() == reward_pool_contract,
    {
        if self.admin.is_some() {
            return Err(Error::AlreadyInitialized);
        }
        self.admin = Some(admin);
        self.reward_pool = reward_pool_contract;
        Ok(())
    }

    fn find(&self, schedule_id: &String) -> (r: Option<usize>)
        ensures
            r is None ==> self.schedule(schedule_id@) is None,
            r matches Some(i) ==> i < self.schedules@.len() && self.schedule(schedule_id@) == Some(
                (
                    self.schedules@[i as int].config.rewards_per_epoch,
                    self.schedules@[i as int].config.epoch_duration,
                    self.schedules@[i as int].config.active,
                    self.schedules@[i as int].state,
                ),
            ),
    {
        let mut i: usize = self.schedules.len();
        assert(self.schedules@.take(i as int) == self.schedules@);
        while i > 0
            invariant
                i <= self.schedules@.len(),
                schedule_in(self.schedules@, schedule_id@) == schedule_in(
                    self.schedules@.take(i as int),
                    schedule_id@,
                ),
            decreases i,
        {
            let ghost pre = self.schedules@.take(i as int);
            assert(pre.drop_last() == self.schedules@.take(i - 1));
            if self.schedules[i - 1].schedule_id == *schedule_id {
                return Some(i - 1);
            }
            i = i - 1;
        }
        None
    }

    /// Sets a schedule's configuration at `now`, restarting its epochs.
    pub fn configure_emission(&mut self, admin: Address, schedule_id: String, config: EmissionConfig, now: u64) -> (r:
        Result<(), Error>)
        ensures
            final(self).id() == old(self).id(),
            final(self).admin() == old(self).admin(),
            forall|s: Seq<char>, e: u64, u: Address|
                final(self).claimed(s, e, u) == old(self).claimed(s, e, u),
            r == match old(self).admin_check(admin) {
                Some(e) => Err(e),
                None => if config.rewards_per_epoch <= 0 || config.epoch_duration == 0 {
                    Err(Error::InvalidConfig)
                } else {
                    Ok(())
                },
            },
            forall|s: Seq<char>| #[trigger]
                final(self).schedule(s) == if r is Ok && s == schedule_id@ {
                    Some(
                        (
                            config.rewards_per_epoch,
                            config.epoch_duration,
                            config.active,
                            EmissionEpochState {
                                current_epoch: 0,
                                epoch_start_time: now,
                                total_emitted: 0,
                            },
                        ),
                    )
                } else {
                    old(self).schedule(s)
                },
    {
        match self.admin {
            None => return Err(Error::NotInitialized),
            Some(a) => {
                if a != admin {
                    return Err(Error::NotAuthorized);
                }
            },
        }
        if config.rewards_per_epoch <= 0 || config.epoch_duration == 0 {
            return Err(Error::InvalidConfig);
        }
        let ghost before = self.schedules@;
        self.schedules.push(
            ScheduleWrite {
                schedule_id,
                config,
                state: EmissionEpochState { current_epoch: 0, epoch_start_time: now, total_emitted: 0 },
            },
        );
        assert(self.schedules@.drop_last() == before);
        Ok(())
    }

    /// Closes the current epoch of an active schedule at `now`, once its
    /// duration has passed, moving the epoch's rewards from the pool into the
    /// contract; returns the new epoch id.
    pub fn emit_for_epoch(&mut self, token: &mut TokenLedger, admin: Address, schedule_id: String, now: u64) -> (r:
        Result<u64, Error>)
        requires
            old(token).wf(),
        ensures
            final(token).wf(),
            final(self).id() == old(self).id(),
            final(self).admin() == old(self).admin(),
            forall|s: Seq<char>, e: u64, u: Address|
                final(self).claimed(s, e, u) == old(self).claimed(s, e, u),
            r == match old(self).admin_check(admin) {
                Some(e) => Err(e),
                None => match old(self).schedule(schedule_id@) {
                    None => Err(Error::ScheduleNotFound),
                    Some(sc) => if !sc.2 {
                        Err(Error::ScheduleInactive)
                    } else if now < sc.3.epoch_start_time + sc.1 {
                        Err(Error::EpochNotComplete)
                    } else if sc.3.current_epoch == u64::MAX || sc.3.total_emitted + sc.0
                        > i128::MAX || sc.3.total_emitted + sc.0 < i128::MIN {
                        Err(Error::Overflow)
                    } else if old(token).transfer_outcome(
                        old(self).reward_pool(),
                        old(self).id(),
                        sc.0,
                    ) is Err {
                        Err(Error::TransferFailed)
                    } else {
                        Ok((sc.3.current_epoch + 1) as u64)
                    },
                },
            },
            forall|s: Seq<char>| #[trigger]
                final(self).schedule(s) == if r is Ok && s == schedule_id@ {
                    let sc = old(self).schedule(s).unwrap();
                    Some(
                        (
                            sc.0,
                            sc.1,
                            sc.2,
                            EmissionEpochState {
                                current_epoch: (sc.3.current_epoch + 1) as u64,
                                epoch_start_time: now,
                                total_emitted: (sc.3.total_emitted + sc.0) as i128,
                            },
                        ),
                    )
                } else {
                    old(self).schedule(s)
                },
            r is Ok ==> final(token).view_balances() == moved(
                old(token).view_balances(),
                old(self).reward_pool().0,
                old(self).id().0,
                old(self).schedule(schedule_id@).unwrap().0 as int,
            ),
            r is Err ==> final(token).view_balances() == old(token).view_balances(),
    {
        match self.admin {
            None => return Err(Error::NotInitialized),
            Some(a) => {
                if a != admin {
                    return Err(Error::NotAuthorized);
                }
            },
        }
        let idx = match self.find(&schedule_id) {
            None => return Err(Error::ScheduleNotFound),
            Some(i) => i,
        };
        let config = copy_config(&self.schedules[idx].config);
        let state = self.schedules[idx].state;
        if !config.active {
            return Err(Error::ScheduleInactive);
        }
        if (now as u128) < (state.epoch_start_time as u128) + (config.epoch_duration as u128) {
            return Err(Error::EpochNotComplete);
        }
        let epoch = match state.current_epoch.checked_add(1) {
            Some(e) => e,
            None => return Err(Error::Overflow),
        };
        let total = match state.total_emitted.checked_add(config.rewards_per_epoch) {
            Some(t) => t,
            None => return Err(Error::Overflow),
        };
        match token.transfer(self.reward_pool, self.id, config.rewards_per_epoch) {
            Err(_) => return Err(Error::TransferFailed),
            Ok(()) => {},
        }
        let ghost before = self.schedules@;
        self.schedules.push(
            ScheduleWrite {
                schedule_id,
                config,
                state: EmissionEpochState { current_epoch: epoch, epoch_start_time: now, total_emitted: total },
            },
        );
        assert(self.schedules@.drop_last() == before);
        Ok(epoch)
    }

    fn find_claim(&self, schedule_id: &String, epoch_id: u64, user: Address) -> (r: bool)
        ensures
            r == self.claimed(schedule_id@, epoch_id, user),
    {
        let mut i: usize = 0;
        while i < self.claims.len()
            invariant
                i <= self.claims@.len(),
                forall|j: int|
                    0 <= j < i ==> !(#[trigger] self.claims@[j].user == user
                        && self.claims@[j].epoch_id == epoch_id && self.claims@[j].schedule_id@
                        == schedule_id@),
            decreases self.claims@.len() - i,
        {
            let c = &self.claims[i];
            if c.user == user && c.epoch_id == epoch_id && c.schedule_id == *schedule_id {
                return true;
            }
            i = i + 1;
        }
        false
    }

    /// Pays `user` `reward_amount` for an epoch of a schedule, once.
    pub fn claim_daily_reward(
        &mut self,
        token: &mut TokenLedger,
        user: Address,
        schedule_id: String,
        epoch_id: u64,
        reward_amount: i128,
    ) -> (r: Result<(), Error>)
        requires
            old(token).wf(),
        ensures
            final(token).wf(),
            final(self).id() == old(self).id(),
            final(self).admin() == old(self).admin(),
            forall|s: Seq<char>| final(self).schedule(s) == old(self).schedule(s),
            r == if reward_amount <= 0 {
                Err(Error::InvalidAmount)
            } else if old(self).claimed(schedule_id@, epoch_id, user) {
                Err(Error::AlreadyClaimed)
            } else if old(self).schedule(schedule_id@) is None {
                Err(Error::ScheduleNotFound)
            } else if old(token).transfer_outcome(old(self).id(), user, reward_amount) is Err {
                Err(Error::TransferFailed)
            } else {
                Ok(())
            },
            forall|s: Seq<char>, e: u64, u: Address| #[trigger]
                final(self).claimed(s, e, u) == (old(self).claimed(s, e, u) || (r is Ok && s
                    == schedule_id@ && e == epoch_id && u == user)),
            r is Ok ==> final(token).view_balances() == moved(
                old(token).view_balances(),
                old(self).id().0,
                user.0,
                reward_amount as int,
            ),
            r is Err ==> final(token).view_balances() == old(token).view_balances(),
    {
        if reward_amount <= 0 {
            return Err(Error::InvalidAmount);
        }
        if self.find_claim(&schedule_id, epoch_id, user) {
            return Err(Error::AlreadyClaimed);
        }
        if self.find(&schedule_id).is_none() {
            return Err(Error::ScheduleNotFound);
        }
        match token.transfer(self.id, user, reward_amount) {
            Err(_) => return Err(Error::TransferFailed),
            Ok(()) => {},
        }
        let ghost before = self.claims@;
        let ghost sid = schedule_id@;
        self.claims.push(Claim { schedule_id, epoch_id, user });
        assert forall|s: Seq<char>, e: u64, u: Address| #[trigger]
            self.claimed(s, e, u) == (old(self).claimed(s, e, u) || (s == sid && e == epoch_id && u
                == user)) by {
            if claimed_in(before, s, e, u) {
                let i = choose|i: int|
                    0 <= i < before.len() && #[trigger] before[i].user == u && before[i].epoch_id == e
                        && before[i].schedule_id@ == s;
                assert(self.claims@[i] == before[i]);
            }
            if s == sid && e == epoch_id && u == user {
                assert(self.claims@[before.len() as int].user == u);
            }
            if claimed_in(self.claims@, s, e, u) {
                let i = choose|i: int|
                    0 <= i < self.claims@.len() && #[trigger] self.claims@[i].user == u
                        && self.claims@[i].epoch_id == e && self.claims@[i].schedule_id@ == s;
                if i < before.len() {
                    assert(before[i] == self.claims@[i]);
                }
            }
        }
        Ok(())
    }

    /// The epoch state of a schedule.
    pub fn emission_state(&self, schedule_id: String) -> (r: Result<EmissionEpochState, Error>)
        ensures
            r == match self.schedule(schedule_id@) {
                Some(sc) => Ok(sc.3),
                None => Err(Error::ScheduleNotFound),
            },
    {
        match self.find(&schedule_id) {
            None => Err(Error::ScheduleNotFound),
            Some(i) => Ok(self.schedules[i].state),
        }
    }
}

} // verus!
