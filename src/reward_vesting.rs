//! Token rewards that vest linearly after a cliff, claimable as they vest and
//! revocable by the admin.
use crate::token::moved;
use crate::token::TokenLedger;
use crate::Address;
use vstd::arithmetic::div_mod::lemma_hoist_over_denominator;
use vstd::prelude::*;

verus! {

/// Why a vesting operation was refused.
#[derive(Clone, Copy, Debug, PartialEq, Eq, Structural)]
pub enum Error {
    AlreadyInitialized,
    NotInitialized,
    NotAuthorized,
    /// The amount is not positive.
    InvalidAmount,
    /// The duration is zero.
    InvalidDuration,
    ScheduleNotFound,
    AlreadyRevoked,
    NothingToClaim,
    Overflow,
    TransferFailed,
}

#[derive(Clone, Copy, Debug, PartialEq, Eq, Structural)]
pub struct VestingSchedule {
    pub schedule_id: u64,
    pub user: Address,
    pub amount: i128,
    pub start_timestamp: u64,
    pub cliff_seconds: u64,
    pub duration_seconds: u64,
    pub claimed: i128,
    pub revoked: bool,
}

/// What has vested at `now`: nothing before the cliff, everything once the
/// duration has elapsed, and `floor(amount * elapsed / duration)` in between.
pub open spec fn vested(s: VestingSchedule, now: u64) -> int {
    if now < s.start_timestamp + s.cliff_seconds {
        0
    } else if now - s.start_timestamp >= s.duration_seconds {
        s.amount as int
    } else {
        s.amount * (now - s.start_timestamp) / (s.duration_seconds as int)
    }
}

/// What a claim at `now` pays out of `s`.
pub open spec fn claimable(s: VestingSchedule, now: u64) -> int {
    if s.revoked || vested(s, now) <= s.claimed {
        0
    } else {
        vested(s, now) - s.claimed
    }
}

/// A schedule after `user` claims at `now`.
pub open spec fn after_claim(s: VestingSchedule, user: Address, now: u64) -> VestingSchedule {
    if s.user == user {
        VestingSchedule { claimed: (s.claimed + claimable(s, now)) as i128, ..s }
    } else {
        s
    }
}

/// What `user` can claim at `now` from the schedules `s`.
pub open spec fn claim_total(s: Seq<VestingSchedule>, user: Address, now: u64) -> int
    decreases s.len(),
{
    if s.len() == 0 {
        0
    } else {
        claim_total(s.drop_last(), user, now) + if s.last().user == user {
            claimable(s.last(), now)
        } else {
            0
        }
    }
}

/// A schedule that the contract can hold.
pub open spec fn schedule_wf(s: VestingSchedule) -> bool {
    &&& s.amount > 0
    &&& s.duration_seconds > 0
    &&& 0 <= s.claimed <= s.amount
}

pub proof fn lemma_vested_bounds(s: VestingSchedule, now: u64)
    requires
        schedule_wf(s),
    ensures
        0 <= vested(s, now) <= s.amount,
        0 <= claimable(s, now) <= s.amount - s.claimed,
{
    if now >= s.start_timestamp + s.cliff_seconds && now - s.start_timestamp < s.duration_seconds {
        let e = now - s.start_timestamp;
        let d = s.duration_seconds as int;
        assert(0 <= s.amount * e <= s.amount * d) by (nonlinear_arith)
            requires
                s.amount > 0,
                0 <= e < d,
        ;
        assert(s.amount * e / d <= s.amount) by (nonlinear_arith)
            requires
                0 <= s.amount * e <= s.amount * d,
                d > 0,
        ;
        assert(s.amount * e / d >= 0) by (nonlinear_arith)
            requires
                0 <= s.amount * e,
                d > 0,
        ;
    }
}

pub proof fn lemma_claim_total_prefix(s: Seq<VestingSchedule>, user: Address, now: u64, i: int)
    requires
        0 <= i <= s.len(),
        forall|j: int| 0 <= j < s.len() ==> schedule_wf(#[trigger] s[j]),
    ensures
        0 <= claim_total(s.take(i), user, now) <= claim_total(s, user, now),
    decreases s.len(),
{
    if s.len() > 0 {
        lemma_vested_bounds(s.last(), now);
        assert(forall|j: int| 0 <= j < s.drop_last().len() ==> s.drop_last()[j] == s[j]);
        if i == s.len() {
            assert(s.take(i) == s);
            lemma_claim_total_prefix(s.drop_last(), user, now, s.len() - 1);
            assert(s.drop_last().take(s.len() - 1) == s.drop_last());
        } else {
            lemma_claim_total_prefix(s.drop_last(), user, now, i);
            assert(s.drop_last().take(i) == s.take(i));
        }
    }
}

/// Computes `vested(s, now)` without overflow, splitting the amount by the
/// duration so that every intermediate product fits in 128 bits.
fn vested_amount(s: &VestingSchedule, now: u64) -> (r: i128)
    requires
        schedule_wf(*s),
    ensures
        r == vested(*s, now),
{
    proof {
        lemma_vested_bounds(*s, now);
    }
    if (now as u128) < (s.start_timestamp as u128) + (s.cliff_seconds as u128) {
        return 0;
    }
    let elapsed = now - s.start_timestamp;
    if elapsed >= s.duration_seconds {
        return s.amount;
    }
    let amount = s.amount as u128;
    let d = s.duration_seconds as u128;
    let e = elapsed as u128;
    let q = amount / d;
    let rem = amount % d;
    assert(rem * e < 0x1_0000_0000_0000_0000_0000_0000_0000_0000) by (nonlinear_arith)
        requires
            rem < d,
            d <= 0xffff_ffff_ffff_ffff,
            e < d,
    ;
    let low = rem * e / d;
    proof {
        let ai = amount as int;
        let ei = e as int;
        let di = d as int;
        assert(ai == q * di + rem) by (nonlinear_arith)
            requires
                q == ai / di,
                rem == ai % di,
                di > 0,
        ;
        assert(ai * ei == rem * ei + (q * ei) * di) by (nonlinear_arith)
            requires
                ai == q * di + rem,
        ;
        lemma_hoist_over_denominator(rem * ei, q * ei, d as nat);
        assert(q * ei <= q * di) by (nonlinear_arith)
            requires
                q >= 0,
                0 <= ei < di,
        ;
    }
    let high = q * e;
    (high + low) as i128
}

/// The vesting contract; `id` is its own identity, which holds the
/// unclaimed rewards.
pub struct RewardVestingContract {
    id: Address,
    admin: Option<Address>,
    token: Address,
    schedules: Vec<VestingSchedule>,
}

impl RewardVestingContract {
    pub closed spec fn id(&self) -> Address {
        self.id
    }

    pub closed spec fn admin(&self) -> Option<Address> {
        self.admin
    }

    /// Every schedule, in the order created; a schedule's id is its index.
    pub closed spec fn schedules(&self) -> Seq<VestingSchedule> {
        self.schedules@
    }

    pub open spec fn wf(&self) -> bool {
        forall|i: int|
            0 <= i < self.schedules().len() ==> schedule_wf(#[trigger] self.schedules()[i])
                && self.schedules()[i].schedule_id == i
    }

    pub open spec fn admin_check(&self, caller: Address) -> Option<Error> {
        match self.admin() {
            None => Some(Error::NotInitialized),
            Some(a) => if a != caller {
                Some(Error::NotAuthorized)
            } else {
                None
            },
        }
    }

    pub fn new(id: Address) -> (r: Self)
        ensures
            r.wf(),
            r.id() == id,
            r.admin() is None,
            r.schedules() == Seq::<VestingSchedule>::empty(),
    {
        RewardVestingContract { id, admin: None, token: id, schedules: Vec::new() }
    }

    pub fn init(&mut self, admin: Address, token_address: Address) -> (r: Result<(), Error>)
        requires
            old(self).wf(),
        ensures
            final(self).wf(),
            final(self).id() == old(self).id(),
            final(self).schedules() == old(self).schedules(),
            old(self).admin() is Some ==> r == Err::<(), Error>(Error::AlreadyInitialized)
                && final(self).admin() == old(self).admin(),
            old(self).admin() is None ==> r is Ok && final(self).admin() == Some(admin),
    {
        if self.admin.is_some() {
            return Err(Error::AlreadyInitialized);
        }
        self.admin = Some(admin);
        self.token = token_address;
        assert(self.schedules() == old(self).schedules());
        Ok(())
    }

    /// What has vested at `now` in schedule `schedule_id`.
    pub fn vested_amount(&self, schedule_id: u64, now: u64) -> (r: Result<i128, Error>)
        requires
            self.wf(),
        ensures
            r == if schedule_id < self.schedules().len() {
                Ok(vested(self.schedules()[schedule_id as int], now) as i128)
            } else {
                Err(Error::ScheduleNotFound)
            },
    {
        if schedule_id as u128 >= self.schedules.len() as u128 {
            return Err(Error::ScheduleNotFound);
        }
        Ok(vested_amount(&self.schedules[schedule_id as usize], now))
    }

    /// Funds a schedule for `user` from the admin's balance; returns its id.
    pub fn create_vesting_schedule(
        &mut self,
        token: &mut TokenLedger,
        admin: Address,
        user: Address,
        amount: i128,
        start_timestamp: u64,
        cliff_seconds: u64,
        duration_seconds: u64,
    ) -> (r: Result<u64, Error>)
        requires
            old(self).wf(),
            old(token).wf(),
        ensures
            final(self).wf(),
            final(token).wf(),
            final(self).id() == old(self).id(),
            final(self).admin() == old(self).admin(),
            r == match old(self).admin_check(admin) {
                Some(e) => Err(e),
                None => if amount <= 0 {
                    Err(Error::InvalidAmount)
                } else if duration_seconds == 0 {
                    Err(Error::InvalidDuration)
                } else if old(self).schedules().len() >= u64::MAX {
                    Err(Error::Overflow)
                } else if old(token).transfer_outcome(admin, old(self).id(), amount) is Err {
                    Err(Error::TransferFailed)
                } else {
                    Ok(old(self).schedules().len() as u64)
                },
            },
            r is Ok ==> final(self).schedules() == old(self).schedules().push(
                VestingSchedule {
                    schedule_id: old(self).schedules().len() as u64,
                    user,
                    amount,
                    start_timestamp,
                    cliff_seconds,
                    duration_seconds,
                    claimed: 0,
                    revoked: false,
                },
            ) && final(token).view_balances() == moved(
                old(token).view_balances(),
                admin.0,
                old(self).id().0,
                amount as int,
            ),
            r is Err ==> final(self).schedules() == old(self).schedules()
                && final(token).view_balances() == old(token).view_balances(),
    {
        match self.admin {
            None => return Err(Error::NotInitialized),
            Some(a) => {
                if a != admin {
                    return Err(Error::NotAuthorized);
                }
            },
        }
        if amount <= 0 {
            return Err(Error::InvalidAmount);
        }
        if duration_seconds == 0 {
            return Err(Error::InvalidDuration);
        }
        if self.schedules.len() as u128 >= u64::MAX as u128 {
            return Err(Error::Overflow);
        }
        match token.transfer(admin, self.id, amount) {
            Err(_) => return Err(Error::TransferFailed),
            Ok(()) => {},
        }
        let schedule_id = self.schedules.len() as u64;
        self.schedules.push(
            VestingSchedule {
                schedule_id,
                user,
                amount,
                start_timestamp,
                cliff_seconds,
                duration_seconds,
                claimed: 0,
                revoked: false,
            },
        );
        Ok(schedule_id)
    }

    /// Pays `user` everything vested and unclaimed at `now` across the user's
    /// schedules that are not revoked.
    pub fn claim_vested(&mut self, token: &mut TokenLedger, user: Address, now: u64) -> (r: Result<
        i128,
        Error,
    >)
        requires
            old(self).wf(),
            old(token).wf(),
        ensures
            final(self).wf(),
            final(token).wf(),
            final(self).id() == old(self).id(),
            final(self).admin() == old(self).admin(),
            r == {
                let total = claim_total(old(self).schedules(), user, now);
                if total > i128::MAX {
                    Err(Error::Overflow)
                } else if total == 0 {
                    Err(Error::NothingToClaim)
                } else if old(token).transfer_outcome(old(self).id(), user, total as i128) is Err {
                    Err(Error::TransferFailed)
                } else {
                    Ok(total as i128)
                }
            },
            r matches Ok(total) ==> final(self).schedules() == old(self).schedules().map_values(
                |s: VestingSchedule| after_claim(s, user, now),
            ) && final(token).view_balances() == moved(
                old(token).view_balances(),
                old(self).id().0,
                user.0,
                total as int,
            ),
            r is Err ==> final(self).schedules() == old(self).schedules()
                && final(token).view_balances() == old(token).view_balances(),
    {
        let ghost s0 = self.schedules@;
        let mut updated: Vec<VestingSchedule> = Vec::new();
        let mut total: i128 = 0;
        let mut i: usize = 0;
        while i < self.schedules.len()
            invariant
                self.wf(),
                self.schedules@ == s0,
                *token == *old(token),
                token.wf(),
                i <= s0.len(),
                total == claim_total(s0.take(i as int), user, now),
                updated@ == s0.take(i as int).map_values(
                    |s: VestingSchedule| after_claim(s, user, now),
                ),
            decreases s0.len() - i,
        {
            let s = self.schedules[i];
            proof {
                lemma_vested_bounds(s, now);
                assert(s0.take(i + 1).drop_last() == s0.take(i as int));
            }
            let mut next = s;
            if s.user == user && !s.revoked {
                let v = vested_amount(&s, now);
                if v > s.claimed {
                    let c = v - s.claimed;
                    total = match total.checked_add(c) {
                        Some(t) => t,
                        None => {
                            proof {
                                lemma_claim_total_prefix(s0, user, now, i + 1);
                            }
                            return Err(Error::Overflow);
                        },
                    };
                    next = VestingSchedule { claimed: v, ..s };
                }
            }
            updated.push(next);
            i = i + 1;
            assert(updated@ =~= s0.take(i as int).map_values(
                |s: VestingSchedule| after_claim(s, user, now),
            ));
        }
        assert(s0.take(s0.len() as int) == s0);
        if total == 0 {
            return Err(Error::NothingToClaim);
        }
        match token.transfer(self.id, user, total) {
            Err(_) => return Err(Error::TransferFailed),
            Ok(()) => {},
        }
        self.schedules = updated;
        proof {
            assert forall|k: int| 0 <= k < self.schedules().len() implies schedule_wf(
                #[trigger] self.schedules()[k],
            ) && self.schedules()[k].schedule_id == k by {
                lemma_vested_bounds(s0[k], now);
            }
        }
        Ok(total)
    }

    /// Revokes a schedule at `now`, returning what had not vested to the
    /// admin; returns that amount.
    pub fn revoke_schedule(&mut self, token: &mut TokenLedger, admin: Address, schedule_id: u64, now: u64) -> (r:
        Result<i128, Error>)
        requires
            old(self).wf(),
            old(token).wf(),
        ensures
            final(self).wf(),
            final(token).wf(),
            final(self).id() == old(self).id(),
            final(self).admin() == old(self).admin(),
            r == match old(self).admin_check(admin) {
                Some(e) => Err(e),
                None => if schedule_id >= old(self).schedules().len() {
                    Err(Error::ScheduleNotFound)
                } else {
                    let s = old(self).schedules()[schedule_id as int];
                    let unvested = s.amount - vested(s, now);
                    if s.revoked {
                        Err(Error::AlreadyRevoked)
                    } else if unvested > 0 && old(token).transfer_outcome(
                        old(self).id(),
                        admin,
                        unvested as i128,
                    ) is Err {
                        Err(Error::TransferFailed)
                    } else {
                        Ok(unvested as i128)
                    }
                },
            },
            r matches Ok(unvested) ==> final(self).schedules() == old(self).schedules().update(
                schedule_id as int,
                VestingSchedule { revoked: true, ..old(self).schedules()[schedule_id as int] },
            ) && final(token).view_balances() == if unvested > 0 {
                moved(old(token).view_balances(), old(self).id().0, admin.0, unvested as int)
            } else {
                old(token).view_balances()
            },
            r is Err ==> final(self).schedules() == old(self).schedules()
                && final(token).view_balances() == old(token).view_balances(),
    {
        match self.admin {
            None => return Err(Error::NotInitialized),
            Some(a) => {
                if a != admin {
                    return Err(Error::NotAuthorized);
                }
            },
        }
        if schedule_id as u128 >= self.schedules.len() as u128 {
            return Err(Error::ScheduleNotFound);
        }
        let idx = schedule_id as usize;
        let s = self.schedules[idx];
        if s.revoked {
            return Err(Error::AlreadyRevoked);
        }
        proof {
            lemma_vested_bounds(s, now);
        }
        let unvested = s.amount - vested_amount(&s, now);
        if unvested > 0 {
            match token.transfer(self.id, admin, unvested) {
                Err(_) => return Err(Error::TransferFailed),
                Ok(()) => {},
            }
        }
        self.schedules.set(idx, VestingSchedule { revoked: true, ..s });
        Ok(unvested)
    }

    /// The schedules of `user`, in the order created.
    pub fn vesting_state(&self, user: Address) -> (r: Vec<VestingSchedule>)
        ensures
            r@ == self.schedules().filter(|s: VestingSchedule| s.user == user),
    {
        let mut out: Vec<VestingSchedule> = Vec::new();
        let mut i: usize = 0;
        while i < self.schedules.len()
            invariant
                i <= self.schedules@.len(),
                out@ == self.schedules@.take(i as int).filter(|s: VestingSchedule| s.user == user),
            decreases self.schedules@.len() - i,
        {
            proof {
                let pre = self.schedules@.take(i as int);
                assert(self.schedules@.take(i + 1) == pre.push(self.schedules@[i as int]));
                pre.lemma_filter_push(self.schedules@[i as int], |s: VestingSchedule| s.user == user);
            }
            if self.schedules[i].user == user {
                out.push(self.schedules[i]);
            }
            i = i + 1;
        }
        assert(self.schedules@.take(self.schedules@.len() as int) == self.schedules@);
        out
    }
}

} // verus!
