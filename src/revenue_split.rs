//! Revenue streams split among recipients by weight in basis points.
use crate::token::moved;
use crate::token::TokenLedger;
use crate::Address;
use vstd::prelude::*;

verus! {

/// The weights of a stream must add up to this.
pub const TOTAL_WEIGHT_BPS: u32 = 10_000;

/// Why a revenue-split operation was refused.
#[derive(Clone, Copy, Debug, PartialEq, Eq, Structural)]
pub enum Error {
    AlreadyInitialized,
    NotInitialized,
    NotAuthorized,
    NoRecipients,
    /// The weights do not add up to `TOTAL_WEIGHT_BPS`.
    InvalidWeights,
    InvalidAmount,
    ConfigNotFound,
    NothingToDistribute,
    Overflow,
    TransferFailed,
}

#[derive(Clone, Copy, Debug, PartialEq, Eq, Structural)]
pub struct RecipientWeight {
    pub recipient: Address,
    pub weight_bps: u32,
}

/// A write of a stream's recipients.
pub struct ConfigWrite {
    pub stream_id: String,
    pub recipients: Vec<RecipientWeight>,
}

/// A write of a stream's undistributed balance.
pub struct BalanceWrite {
    pub stream_id: String,
    pub balance: i128,
}

/// A write of what a recipient has received from a stream.
pub struct CreditWrite {
    pub stream_id: String,
    pub recipient: Address,
    pub total: i128,
}

pub open spec fn config_in(log: Seq<ConfigWrite>, stream_id: Seq<char>) -> Option<Seq<RecipientWeight>>
    decreases log.len(),
{
    if log.len() == 0 {
        None
    } else if log.last().stream_id@ == stream_id {
        Some(log.last().recipients@)
    } else {
        config_in(log.drop_last(), stream_id)
    }
}

pub open spec fn balance_in(log: Seq<BalanceWrite>, stream_id: Seq<char>) -> i128
    decreases log.len(),
{
    if log.len() == 0 {
        0
    } else if log.last().stream_id@ == stream_id {
        log.last().balance
    } else {
        balance_in(log.drop_last(), stream_id)
    }
}

/// A credit write as plain values: stream, recipient id, total received.
pub type Credit = (Seq<char>, u64, i128);

pub open spec fn credit_view(w: CreditWrite) -> Credit {
    (w.stream_id@, w.recipient.0, w.total)
}

/// What `recipient` has received from the stream, by the last write.
pub open spec fn credit_in(log: Seq<Credit>, stream_id: Seq<char>, recipient: u64) -> i128
    decreases log.len(),
{
    if log.len() == 0 {
        0
    } else if log.last().0 == stream_id && log.last().1 == recipient {
        log.last().2
    } else {
        credit_in(log.drop_last(), stream_id, recipient)
    }
}

/// The sum of the weights.
pub open spec fn weight_sum(r: Seq<RecipientWeight>) -> int
    decreases r.len(),
{
    if r.len() == 0 {
        0
    } else {
        weight_sum(r.drop_last()) + r.last().weight_bps
    }
}

pub proof fn lemma_weight_sum_prefix(r: Seq<RecipientWeight>, i: int)
    requires
        0 <= i <= r.len(),
    ensures
        weight_sum(r.take(i)) <= weight_sum(r),
    decreases r.len(),
{
    if i < r.len() {
        lemma_weight_sum_prefix(r.drop_last(), i);
        assert(r.drop_last().take(i) == r.take(i));
    } else {
        assert(r.take(i) == r);
    }
}

/// Whether `amount` can move from `from` to `to` in balances `b`.
pub open spec fn can_move(b: Map<u64, int>, from: u64, to: u64, amount: int) -> bool {
    amount >= 0 && b[from] >= amount && (from == to || b[to] + amount <= i128::MAX)
}

/// Pays each recipient in turn its share `floor(total * weight / 10000)`,
/// when positive, from `from`, recording what each has received; yields the
/// credit writes and balances after, or the first failure.
pub open spec fn paid(
    recipients: Seq<RecipientWeight>,
    total: i128,
    stream_id: Seq<char>,
    credits: Seq<Credit>,
    balances: Map<u64, int>,
    from: u64,
) -> Result<(Seq<Credit>, Map<u64, int>), Error>
    decreases recipients.len(),
{
    if recipients.len() == 0 {
        Ok((credits, balances))
    } else {
        let r = recipients[0];
        let product = total * r.weight_bps;
        if product > i128::MAX {
            Err(Error::Overflow)
        } else {
            let share = product / 10_000;
            if share <= 0 {
                paid(recipients.drop_first(), total, stream_id, credits, balances, from)
            } else {
                let prev = credit_in(credits, stream_id, r.recipient.0);
                if prev + share > i128::MAX {
                    Err(Error::Overflow)
                } else if !can_move(balances, from, r.recipient.0, share) {
                    Err(Error::TransferFailed)
                } else {
                    paid(
                        recipients.drop_first(),
                        total,
                        stream_id,
                        credits.push((stream_id, r.recipient.0, (prev + share) as i128)),
                        moved(balances, from, r.recipient.0, share),
                        from,
                    )
                }
            }
        }
    }
}

/// The revenue split contract; `id` is its own identity, which holds
/// deposits until distributed.
pub struct RevenueSplit {
    id: Address,
    admin: Option<Address>,
    token: Address,
    configs: Vec<ConfigWrite>,
    balances: Vec<BalanceWrite>,
    credits: Vec<CreditWrite>,
}

impl RevenueSplit {
    pub closed spec fn id(&self) -> Address {
        self.id
    }

    pub closed spec fn admin(&self) -> Option<Address> {
        self.admin
    }

    /// The recipients of a stream, if configured.
    pub closed spec fn config(&self, stream_id: Seq<char>) -> Option<Seq<RecipientWeight>> {
        config_in(self.configs@, stream_id)
    }

    /// What a stream holds, deposited and not yet distributed.
    pub closed spec fn stream_balance(&self, stream_id: Seq<char>) -> i128 {
        balance_in(self.balances@, stream_id)
    }

    /// The record of what recipients have received.
    pub closed spec fn credits(&self) -> Seq<Credit> {
        self.credits@.map_values(|w: CreditWrite| credit_view(w))
    }

    pub open spec fn admin_check(&self, caller: Address) -> Option<Error> {
        match self.admin() {
            None => Some(Error::NotInitialized),
            Some(a) => if a != caller {
                Some(Error::NotAuthorized)
            } else {
                None
            },
        }
    }

    pub fn new(id: Address) -> (r: Self)
        ensures
            r.id() == id,
            r.admin() is None,
            forall|s: Seq<char>| r.config(s) is None && r.stream_balance(s) == 0,
            r.credits() == Seq::<Credit>::empty(),
    {
        let r = RevenueSplit {
            id,
            admin: None,
            token: id,
            configs: Vec::new(),
            balances: Vec::new(),
            credits: Vec::new(),
        };
        assert(r.credits() =~= Seq::<Credit>::empty());
        r
    }

    pub fn init(&mut self, admin: Address, token_address: Address) -> (r: Result<(), Error>)
        ensures
            final(self).id() == old(self).id(),
            forall|s: Seq<char>| final(self).config(s) == old(self).config(s),
            forall|s: Seq<char>| final(self).stream_balance(s) == old(self).stream_balance(s),
            final(self).credits() == old(self).credits(),
            old(self).admin() is Some ==> r == Err::<(), Error>(Error::AlreadyInitialized)
                && final(self).admin() == old(self).admin(),
            old(self).admin() is None ==> r is Ok && final(self).admin() == Some(admin),
    {
        if self.admin.is_some() {
            return Err(Error::AlreadyInitialized);
        }
        self.admin = Some(admin);
        self.token = token_address;
        Ok(())
    }

    /// Sets the recipients of a stream; their weights must add up to
    /// `TOTAL_WEIGHT_BPS`.
    pub fn set_split_config(&mut self, admin: Address, stream_id: String, recipients: Vec<RecipientWeight>) -> (r:
        Result<(), Error>)
        ensures
            final(self).id() == old(self).id(),
            final(self).admin() == old(self).admin(),
            forall|s: Seq<char>| final(self).stream_balance(s) == old(self).stream_balance(s),
            final(self).credits() == old(self).credits(),
            r == match old(self).admin_check(admin) {
                Some(e) => Err(e),
                None => if recipients@.len() == 0 {
                    Err(Error::NoRecipients)
                } else if weight_sum(recipients@) != TOTAL_WEIGHT_BPS {
                    Err(Error::InvalidWeights)
                } else {
                    Ok(())
                },
            },
            forall|s: Seq<char>| #[trigger]
                final(self).config(s) == if r is Ok && s == stream_id@ {
                    Some(recipients@)
                } else {
                    old(self).config(s)
                },
    {
        match self.admin {
            None => return Err(Error::NotInitialized),
            Some(a) => {
                if a != admin {
                    return Err(Error::NotAuthorized);
                }
            },
        }
        if recipients.len() == 0 {
            return Err(Error::NoRecipients);
        }
        let mut total: u32 = 0;
        let mut i: usize = 0;
        while i < recipients.len()
            invariant
                i <= recipients@.len(),
                total == weight_sum(recipients@.take(i as int)),
                old(self).admin_check(admin) is None,
                recipients@.len() > 0,
                self.configs@ == old(self).configs@,
                self.balances@ == old(self).balances@,
                self.credits@ == old(self).credits@,
                self.id == old(self).id,
                self.admin == old(self).admin,
            decreases recipients@.len() - i,
        {
            assert(recipients@.take(i + 1).drop_last() == recipients@.take(i as int));
            total = match total.checked_add(recipients[i].weight_bps) {
                Some(t) => t,
                None => {
                    proof {
                        lemma_weight_sum_prefix(recipients@, i + 1);
                        assert(recipients@.take(i + 1).last() == recipients@[i as int]);
                        assert(weight_sum(recipients@.take(i + 1)) > u32::MAX);
                    }
                    return Err(Error::InvalidWeights);
                },
            };
            i = i + 1;
        }
        assert(recipients@.take(recipients@.len() as int) == recipients@);
        if total != TOTAL_WEIGHT_BPS {
            return Err(Error::InvalidWeights);
        }
        let ghost before = self.configs@;
        self.configs.push(ConfigWrite { stream_id, recipients });
        assert(self.configs@.drop_last() == before);
        Ok(())
    }

    fn find_config(&self, stream_id: &String) -> (r: Option<usize>)
        ensures
            r is None ==> self.config(stream_id@) is None,
            r matches Some(i) ==> i < self.configs@.len() && self.config(stream_id@) == Some(
                self.configs@[i as int].recipients@,
            ),
    {
        let mut i: usize = self.configs.len();
        assert(self.configs@.take(i as int) == self.configs@);
        while i > 0
            invariant
                i <= self.configs@.len(),
                config_in(self.configs@, stream_id@) == config_in(
                    self.configs@.take(i as int),
                    stream_id@,
                ),
            decreases i,
        {
            let ghost pre = self.configs@.take(i as int);
            assert(pre.drop_last() == self.configs@.take(i - 1));
            if self.configs[i - 1].stream_id == *stream_id {
                return Some(i - 1);
            }
            i = i - 1;
        }
        None
    }

    fn find_balance(&self, stream_id: &String) -> (r: i128)
        ensures
            r == self.stream_balance(stream_id@),
    {
        let mut i: usize = self.balances.len();
        assert(self.balances@.take(i as int) == self.balances@);
        while i > 0
            invariant
                i <= self.balances@.len(),
                balance_in(self.balances@, stream_id@) == balance_in(
                    self.balances@.take(i as int),
                    stream_id@,
                ),
            decreases i,
        {
            let ghost pre = self.balances@.take(i as int);
            assert(pre.drop_last() == self.balances@.take(i - 1));
            if self.balances[i - 1].stream_id == *stream_id {
                return self.balances[i - 1].balance;
            }
            i = i - 1;
        }
        0
    }

    fn write_balance(&mut self, stream_id: String, balance: i128)
        ensures
            final(self).id() == old(self).id(),
            final(self).admin() == old(self).admin(),
            final(self).configs@ == old(self).configs@,
            final(self).credits@ == old(self).credits@,
            final(self).balances@ == old(self).balances@.push(BalanceWrite { stream_id, balance }),
    {
        self.balances.push(BalanceWrite { stream_id, balance });
    }

    fn find_credit(&self, stream_id: &String, recipient: Address) -> (r: i128)
        ensures
            r == credit_in(self.credits(), stream_id@, recipient.0),
    {
        let ghost all = self.credits();
        let mut i: usize = self.credits.len();
        assert(all.take(i as int) == all);
        while i > 0
            invariant
                i <= self.credits@.len(),
                all == self.credits(),
                credit_in(all, stream_id@, recipient.0) == credit_in(
                    all.take(i as int),
                    stream_id@,
                    recipient.0,
                ),
            decreases i,
        {
            let ghost pre = all.take(i as int);
            assert(pre.drop_last() == all.take(i - 1));
            let w = &self.credits[i - 1];
            if w.recipient == recipient && w.stream_id == *stream_id {
                return w.total;
            }
            i = i - 1;
        }
        0
    }

    /// Pays out a stream's balance to its recipients by weight and empties
    /// the stream; any share lost to rounding down stays with the contract.
    pub fn distribute(&mut self, token: &mut TokenLedger, admin: Address, stream_id: String) -> (r: Result<
        (),
        Error,
    >)
        requires
            old(token).wf(),
        ensures
            final(token).wf(),
            final(self).id() == old(self).id(),
            final(self).admin() == old(self).admin(),
            forall|s: Seq<char>| final(self).config(s) == old(self).config(s),
            r == match old(self).admin_check(admin) {
                Some(e) => Err(e),
                None => match old(self).config(stream_id@) {
                    None => Err(Error::ConfigNotFound),
                    Some(recipients) => if old(self).stream_balance(stream_id@) <= 0 {
                        Err(Error::NothingToDistribute)
                    } else {
                        match paid(
                            recipients,
                            old(self).stream_balance(stream_id@),
                            stream_id@,
                            old(self).credits(),
                            old(token).view_balances(),
                            old(self).id().0,
                        ) {
                            Err(e) => Err(e),
                            Ok(_) => Ok(()),
                        }
                    },
                },
            },
            r is Ok ==> {
                let out = paid(
                    old(self).config(stream_id@).unwrap(),
                    old(self).stream_balance(stream_id@),
                    stream_id@,
                    old(self).credits(),
                    old(token).view_balances(),
                    old(self).id().0,
                ).unwrap();
                &&& final(self).credits() == out.0
                &&& final(token).view_balances() == out.1
                &&& forall|s: Seq<char>| #[trigger]
                    final(self).stream_balance(s) == if s == stream_id@ {
                        0
                    } else {
                        old(self).stream_balance(s)
                    }
            },
            r is Err ==> final(self).credits() == old(self).credits() && forall|s: Seq<char>|
                #[trigger] final(self).stream_balance(s) == old(self).stream_balance(s)
                && final(token).view_balances() == old(token).view_balances(),
    {
        match self.admin {
            None => return Err(Error::NotInitialized),
            Some(a) => {
                if a != admin {
                    return Err(Error::NotAuthorized);
                }
            },
        }
        let idx = match self.find_config(&stream_id) {
            None => return Err(Error::ConfigNotFound),
            Some(i) => i,
        };
        let total = self.find_balance(&stream_id);
        if total <= 0 {
            return Err(Error::NothingToDistribute);
        }
        let mut recipients: Vec<RecipientWeight> = Vec::new();
        let mut k: usize = 0;
        while k < self.configs[idx].recipients.len()
            invariant
                idx < self.configs@.len(),
                k <= self.configs@[idx as int].recipients@.len(),
                recipients@ == self.configs@[idx as int].recipients@.take(k as int),
            decreases self.configs@[idx as int].recipients@.len() - k,
        {
            recipients.push(self.configs[idx].recipients[k]);
            k = k + 1;
            assert(recipients@ =~= self.configs@[idx as int].recipients@.take(k as int));
        }
        assert(self.configs@[idx as int].recipients@.take(k as int)
            == self.configs@[idx as int].recipients@);
        assert(self.config(stream_id@) == Some(recipients@));
        let ghost full = paid(
            recipients@,
            total,
            stream_id@,
            self.credits(),
            token.view_balances(),
            self.id.0,
        );
        let base_len = self.credits.len();
        let mut trial = token.snapshot();
        let mut i: usize = 0;
        assert(recipients@.skip(0) == recipients@);
        assert(self.credits@.subrange(0, base_len as int) == self.credits@);
        while i < recipients.len()
            invariant
                i <= recipients@.len(),
                trial.wf(),
                total > 0,
                *token == *old(token),
                token.wf(),
                old(self).admin_check(admin) is None,
                old(self).config(stream_id@) == Some(recipients@),
                old(self).stream_balance(stream_id@) == total,
                full == paid(
                    recipients@,
                    total,
                    stream_id@,
                    old(self).credits(),
                    old(token).view_balances(),
                    old(self).id().0,
                ),
                self.id == old(self).id,
                self.admin == old(self).admin,
                self.configs@ == old(self).configs@,
                self.balances@ == old(self).balances@,
                base_len == old(self).credits@.len(),
                self.credits@.len() >= base_len,
                self.credits@.subrange(0, base_len as int) == old(self).credits@,
                full == paid(
                    recipients@.skip(i as int),
                    total,
                    stream_id@,
                    self.credits(),
                    trial.view_balances(),
                    self.id.0,
                ),
            decreases recipients@.len() - i,
        {
            let ghost rest = recipients@.skip(i as int);
            assert(rest.drop_first() == recipients@.skip(i + 1));
            assert(rest[0] == recipients@[i as int]);
            let rw = recipients[i];
            let product = match total.checked_mul(rw.weight_bps as i128) {
                Some(p) => p,
                None => {
                    self.credits.truncate(base_len);
                    assert(self.credits() =~= old(self).credits());
                    return Err(Error::Overflow);
                },
            };
            let share = product / 10_000;
            if share > 0 {
                let prev = self.find_credit(&stream_id, rw.recipient);
                let updated = match prev.checked_add(share) {
                    Some(u) => u,
                    None => {
                        self.credits.truncate(base_len);
                        assert(self.credits() =~= old(self).credits());
                        return Err(Error::Overflow);
                    },
                };
                match trial.transfer(self.id, rw.recipient, share) {
                    Err(_) => {
                        self.credits.truncate(base_len);
                        assert(self.credits() =~= old(self).credits());
                        return Err(Error::TransferFailed);
                    },
                    Ok(()) => {},
                }
                let ghost before = self.credits@;
                self.credits.push(
                    CreditWrite { stream_id: stream_id.clone(), recipient: rw.recipient, total: updated },
                );
                assert(self.credits@.subrange(0, base_len as int) == before.subrange(
                    0,
                    base_len as int,
                ));
                assert(self.credits() =~= before.map_values(|w: CreditWrite| credit_view(w)).push(
                    (stream_id@, rw.recipient.0, updated),
                ));
            }
            i = i + 1;
        }
        assert(recipients@.skip(i as int).len() == 0);
        self.write_balance(stream_id, 0);
        assert(self.balances@.drop_last() == old(self).balances@);
        *token = trial;
        Ok(())
    }

    /// What `recipient` has received from a stream.
    pub fn recipient_balance(&self, stream_id: String, recipient: Address) -> (r: i128)
        ensures
            r == credit_in(self.credits(), stream_id@, recipient.0),
    {
        self.find_credit(&stream_id, recipient)
    }

    /// Moves `amount` from `depositor` into a configured stream.
    pub fn deposit_revenue(&mut self, token: &mut TokenLedger, depositor: Address, stream_id: String, amount: i128) -> (r:
        Result<(), Error>)
        requires
            old(token).wf(),
        ensures
            final(token).wf(),
            final(self).id() == old(self).id(),
            final(self).admin() == old(self).admin(),
            forall|s: Seq<char>| final(self).config(s) == old(self).config(s),
            final(self).credits() == old(self).credits(),
            r == if amount <= 0 {
                Err(Error::InvalidAmount)
            } else if old(self).config(stream_id@) is None {
                Err(Error::ConfigNotFound)
            } else if old(self).admin() is None {
                Err(Error::NotInitialized)
            } else if old(self).stream_balance(stream_id@) + amount > i128::MAX {
                Err(Error::Overflow)
            } else if old(token).transfer_outcome(depositor, old(self).id(), amount) is Err {
                Err(Error::TransferFailed)
            } else {
                Ok(())
            },
            forall|s: Seq<char>| #[trigger]
                final(self).stream_balance(s) == if r is Ok && s == stream_id@ {
                    (old(self).stream_balance(s) + amount) as i128
                } else {
                    old(self).stream_balance(s)
                },
            r is Ok ==> final(token).view_balances() == moved(
                old(token).view_balances(),
                depositor.0,
                old(self).id().0,
                amount as int,
            ),
            r is Err ==> final(token).view_balances() == old(token).view_balances(),
    {
        if amount <= 0 {
            return Err(Error::InvalidAmount);
        }
        if self.find_config(&stream_id).is_none() {
            return Err(Error::ConfigNotFound);
        }
        if self.admin.is_none() {
            return Err(Error::NotInitialized);
        }
        let current = self.find_balance(&stream_id);
        let updated = match current.checked_add(amount) {
            Some(u) => u,
            None => return Err(Error::Overflow),
        };
        match token.transfer(depositor, self.id, amount) {
            Err(_) => return Err(Error::TransferFailed),
            Ok(()) => {},
        }
        self.write_balance(stream_id, updated);
        assert(self.balances@.drop_last() == old(self).balances@);
        assert(self.credits() =~= old(self).credits());
        Ok(())
    }
}

} // verus!
