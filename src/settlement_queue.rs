//! A first-in, first-out queue of settlements processed in batches.
use crate::Address;
use vstd::prelude::*;

verus! {

#[derive(Clone, Copy, Debug, PartialEq, Eq, Structural)]
pub enum Error {
    AlreadyInitialized,
    NotInitialized,
    NotAuthorized,
    InvalidBatchSize,
    SettlementNotFound,
    InvalidState,
    Overflow,
}

#[derive(Clone, Copy, Debug, PartialEq, Eq, Structural)]
pub enum SettlementStatus {
    Pending,
    Processed,
    Failed,
}

#[derive(Clone, Debug)]
pub struct SettlementData {
    pub account: Address,
    pub amount: i128,
    pub reason: String,
    pub status: SettlementStatus,
    pub error_code: Option<u32>,
}

/// A settlement under its id, in the order it was enqueued.
pub struct SettlementEntry {
    pub settlement_id: String,
    pub data: SettlementData,
}

/// The position of the settlement with id `id`, or -1.
pub open spec fn position(s: Seq<SettlementEntry>, id: Seq<char>) -> int
    decreases s.len(),
{
    if s.len() == 0 {
        -1
    } else if s.last().settlement_id@ == id {
        s.len() - 1
    } else {
        position(s.drop_last(), id)
    }
}

pub proof fn lemma_position(s: Seq<SettlementEntry>, id: Seq<char>)
    ensures
        -1 <= position(s, id) < s.len(),
        position(s, id) >= 0 ==> s[position(s, id)].settlement_id@ == id,
        position(s, id) == -1 ==> forall|i: int| 0 <= i < s.len() ==> s[i].settlement_id@ != id,
    decreases s.len(),
{
    if s.len() > 0 {
        lemma_position(s.drop_last(), id);
        if s.last().settlement_id@ != id {
            assert forall|i: int| 0 <= i < s.len() - 1 implies s[i] == s.drop_last()[i] by {}
        }
    }
}

fn copy_data(d: &SettlementData) -> (c: SettlementData)
    ensures
        c == *d,
{
    SettlementData {
        account: d.account,
        amount: d.amount,
        reason: d.reason.clone(),
        status: d.status,
        error_code: d.error_code,
    }
}

/// A settlement after its turn in a batch: pending ones become processed.
pub open spec fn after_processing(d: SettlementData) -> SettlementData {
    if d.status == SettlementStatus::Pending {
        SettlementData { status: SettlementStatus::Processed, ..d }
    } else {
        d
    }
}

/// The settlement queue contract.
pub struct SettlementQueue {
    admin: Option<Address>,
    reward_contract: Address,
    treasury_contract: Address,
    entries: Vec<SettlementEntry>,
    head: usize,
}

impl SettlementQueue {
    pub closed spec fn admin(&self) -> Option<Address> {
        self.admin
    }

    /// Every settlement ever enqueued, in order.
    pub closed spec fn entries(&self) -> Seq<SettlementEntry> {
        self.entries@
    }

    /// How many settlements have left the queue.
    pub closed spec fn head(&self) -> int {
        self.head as int
    }

    pub closed spec fn wf(&self) -> bool {
        self.head <= self.entries@.len()
    }

    pub open spec fn admin_check(&self, caller: Address) -> Option<Error> {
        match self.admin() {
            None => Some(Error::NotInitialized),
            Some(a) => if a != caller {
                Some(Error::NotAuthorized)
            } else {
                None
            },
        }
    }

    pub fn new() -> (r: Self)
        ensures
            r.wf(),
            r.admin() is None,
            r.entries() == Seq::<SettlementEntry>::empty(),
            r.head() == 0,
    {
        SettlementQueue {
            admin: None,
            reward_contract: Address(0),
            treasury_contract: Address(0),
            entries: Vec::new(),
            head: 0,
        }
    }

    pub fn init(&mut self, admin: Address, reward_contract: Address, treasury_contract: Address) -> (r:
        Result<(), Error>)
        requires
            old(self).wf(),
        ensures
            final(self).wf(),
            final(self).entries() == old(self).entries(),
            final(self).head() == old(self).head(),
            old(self).admin() is Some ==> r == Err::<(), Error>(Error::AlreadyInitialized)
                && final(self).admin() == old(self).admin(),
            old(self).admin() is None ==> r is Ok && final(self).admin() == Some(admin),
    {
        if self.admin.is_some() {
            return Err(Error::AlreadyInitialized);
        }
        self.admin = Some(admin);
        self.reward_contract = reward_contract;
        self.treasury_contract = treasury_contract;
        Ok(())
    }

    fn require_admin(&self, caller: Address) -> (r: Result<(), Error>)
        ensures
            r == match self.admin_check(caller) {
                Some(e) => Err(e),
                None => Ok::<(), Error>(()),
            },
    {
        match self.admin {
            None => Err(Error::NotInitialized),
            Some(a) => if a != caller {
                Err(Error::NotAuthorized)
            } else {
                Ok(())
            },
        }
    }

    fn find(&self, settlement_id: &String) -> (r: Option<usize>)
        ensures
            r matches Some(i) ==> i == position(self.entries(), settlement_id@),
            r is None ==> position(self.entries(), settlement_id@) == -1,
    {
        let mut i: usize = self.entries.len();
        assert(self.entries@.take(i as int) == self.entries@);
        while i > 0
            invariant
                i <= self.entries@.len(),
                position(self.entries@, settlement_id@) == position(
                    self.entries@.take(i as int),
                    settlement_id@,
                ),
            decreases i,
        {
            let ghost pre = self.entries@.take(i as int);
            assert(pre.drop_last() == self.entries@.take(i - 1));
            if self.entries[i - 1].settlement_id == *settlement_id {
                return Some(i - 1);
            }
            i = i - 1;
        }
        None
    }

    /// Appends a pending settlement under a new id.
    pub fn enqueue_settlement(
        &mut self,
        admin: Address,
        settlement_id: String,
        account: Address,
        amount: i128,
        reason: String,
    ) -> (r: Result<(), Error>)
        requires
            old(self).wf(),
        ensures
            final(self).wf(),
            final(self).admin() == old(self).admin(),
            final(self).head() == old(self).head(),
            r == match old(self).admin_check(admin) {
                Some(e) => Err(e),
                None => if position(old(self).entries(), settlement_id@) >= 0 {
                    Err(Error::InvalidState)
                } else if old(self).entries().len() >= usize::MAX {
                    Err(Error::Overflow)
                } else {
                    Ok(())
                },
            },
            r is Ok ==> final(self).entries() == old(self).entries().push(
                SettlementEntry {
                    settlement_id,
                    data: SettlementData {
                        account,
                        amount,
                        reason,
                        status: SettlementStatus::Pending,
                        error_code: None,
                    },
                },
            ),
            r is Err ==> final(self).entries() == old(self).entries(),
    {
        match self.require_admin(admin) {
            Err(e) => return Err(e),
            Ok(()) => {},
        }
        if self.find(&settlement_id).is_some() {
            return Err(Error::InvalidState);
        }
        if self.entries.len() == usize::MAX {
            return Err(Error::Overflow);
        }
        self.entries.push(
            SettlementEntry {
                settlement_id,
                data: SettlementData {
                    account,
                    amount,
                    reason,
                    status: SettlementStatus::Pending,
                    error_code: None,
                },
            },
        );
        Ok(())
    }

    /// Takes up to `batch_size` settlements off the queue, marking pending ones
    /// processed; returns how many were taken.
    pub fn process_next(&mut self, admin: Address, batch_size: u32) -> (r: Result<u32, Error>)
        requires
            old(self).wf(),
        ensures
            final(self).wf(),
            final(self).admin() == old(self).admin(),
            r == match old(self).admin_check(admin) {
                Some(e) => Err(e),
                None => if batch_size == 0 {
                    Err(Error::InvalidBatchSize)
                } else {
                    Ok(
                        if old(self).entries().len() - old(self).head() < batch_size {
                            (old(self).entries().len() - old(self).head()) as u32
                        } else {
                            batch_size
                        },
                    )
                },
            },
            r is Err ==> final(self).head() == old(self).head() && final(self).entries() == old(
                self,
            ).entries(),
            r matches Ok(n) ==> {
                &&& final(self).head() == old(self).head() + n
                &&& final(self).entries().len() == old(self).entries().len()
                &&& forall|k: int|
                    0 <= k < old(self).entries().len() ==> #[trigger] final(self).entries()[k]
                        == if old(self).head() <= k < old(self).head() + n {
                        SettlementEntry {
                            data: after_processing(old(self).entries()[k].data),
                            ..old(self).entries()[k]
                        }
                    } else {
                        old(self).entries()[k]
                    }
            },
    {
        match self.require_admin(admin) {
            Err(e) => return Err(e),
            Ok(()) => {},
        }
        if batch_size == 0 {
            return Err(Error::InvalidBatchSize);
        }
        let ghost start = self.head as int;
        let mut processed: u32 = 0;
        while self.head < self.entries.len() && processed < batch_size
            invariant
                start <= self.head <= self.entries@.len(),
                self.head == start + processed,
                processed <= batch_size,
                self.entries@.len() == old(self).entries@.len(),
                self.admin == old(self).admin,
                start == old(self).head,
                forall|k: int|
                    0 <= k < self.entries@.len() ==> #[trigger] self.entries@[k] == if start <= k
                        < self.head {
                        SettlementEntry {
                            data: after_processing(old(self).entries@[k].data),
                            ..old(self).entries@[k]
                        }
                    } else {
                        old(self).entries@[k]
                    },
            decreases self.entries@.len() - self.head,
        {
            let h = self.head;
            if self.entries[h].data.status == SettlementStatus::Pending {
                let mut entry = self.entries.remove(h);
                entry.data.status = SettlementStatus::Processed;
                self.entries.insert(h, entry);
            }
            self.head = h + 1;
            processed = processed + 1;
        }
        Ok(processed)
    }

    /// Marks a settlement that was not processed as failed with `error_code`.
    pub fn mark_failed(&mut self, admin: Address, settlement_id: String, error_code: u32) -> (r: Result<
        (),
        Error,
    >)
        requires
            old(self).wf(),
        ensures
            final(self).wf(),
            final(self).admin() == old(self).admin(),
            final(self).head() == old(self).head(),
            r == match old(self).admin_check(admin) {
                Some(e) => Err(e),
                None => if position(old(self).entries(), settlement_id@) < 0 {
                    Err(Error::SettlementNotFound)
                } else if old(self).entries()[position(
                    old(self).entries(),
                    settlement_id@,
                )].data.status == SettlementStatus::Processed {
                    Err(Error::InvalidState)
                } else {
                    Ok(())
                },
            },
            r is Ok ==> {
                let p = position(old(self).entries(), settlement_id@);
                final(self).entries() == old(self).entries().update(
                    p,
                    SettlementEntry {
                        data: SettlementData {
                            status: SettlementStatus::Failed,
                            error_code: Some(error_code),
                            ..old(self).entries()[p].data
                        },
                        ..old(self).entries()[p]
                    },
                )
            },
            r is Err ==> final(self).entries() == old(self).entries(),
    {
        proof {
            lemma_position(self.entries@, settlement_id@);
        }
        match self.require_admin(admin) {
            Err(e) => return Err(e),
            Ok(()) => {},
        }
        let p = match self.find(&settlement_id) {
            None => return Err(Error::SettlementNotFound),
            Some(p) => p,
        };
        if self.entries[p].data.status == SettlementStatus::Processed {
            return Err(Error::InvalidState);
        }
        let mut entry = self.entries.remove(p);
        entry.data.status = SettlementStatus::Failed;
        entry.data.error_code = Some(error_code);
        self.entries.insert(p, entry);
        Ok(())
    }

    /// The settlement with id `settlement_id`, if one was enqueued.
    pub fn settlement_state(&self, settlement_id: String) -> (r: Option<SettlementData>)
        ensures
            r == if position(self.entries(), settlement_id@) >= 0 {
                Some(self.entries()[position(self.entries(), settlement_id@)].data)
            } else {
                None
            },
    {
        proof {
            lemma_position(self.entries@, settlement_id@);
        }
        match self.find(&settlement_id) {
            None => None,
            Some(p) => Some(copy_data(&self.entries[p].data)),
        }
    }
}

} // verus!
