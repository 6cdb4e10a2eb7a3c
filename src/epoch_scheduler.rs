//! Tasks scheduled for ledger epochs and marked executed once due.
use crate::Address;
use vstd::prelude::*;

verus! {

#[derive(Clone, Copy, Debug, PartialEq, Eq, Structural)]
pub enum Error {
    AlreadyInitialized,
    NotInitialized,
    NotAuthorized,
    InvalidEpochDuration,
    InvalidScheduleEpoch,
    TaskAlreadyExecuted,
    TaskNotFound,
    EpochNotReached,
}

#[derive(Clone, Copy, Debug)]
pub struct TaskData {
    pub epoch: u64,
    pub payload_hash: [u8; 32],
    pub executed: bool,
}

/// A write of a task's data, in the order the writes happened.
pub struct TaskWrite {
    pub task_id: String,
    pub data: TaskData,
}

/// The data last written for `task_id`.
pub open spec fn task_in(log: Seq<TaskWrite>, task_id: Seq<char>) -> Option<TaskData>
    decreases log.len(),
{
    if log.len() == 0 {
        None
    } else if log.last().task_id@ == task_id {
        Some(log.last().data)
    } else {
        task_in(log.drop_last(), task_id)
    }
}

/// The epoch of ledger `sequence` for epochs of `duration` ledgers; 0 while
/// no duration is set.
pub open spec fn epoch_of(sequence: u32, duration: u32) -> u64 {
    if duration == 0 {
        0
    } else {
        (sequence / duration) as u64
    }
}

/// The epoch scheduler contract.
pub struct EpochScheduler {
    admin: Option<Address>,
    epoch_duration: u32,
    writes: Vec<TaskWrite>,
}

impl EpochScheduler {
    pub closed spec fn admin(&self) -> Option<Address> {
        self.admin
    }

    pub closed spec fn epoch_duration(&self) -> u32 {
        self.epoch_duration
    }

    /// The data of task `task_id`, if it was ever scheduled.
    pub closed spec fn task(&self, task_id: Seq<char>) -> Option<TaskData> {
        task_in(self.writes@, task_id)
    }

    pub fn new() -> (r: Self)
        ensures
            r.admin() is None,
            r.epoch_duration() == 0,
            forall|t: Seq<char>| r.task(t) is None,
    {
        EpochScheduler { admin: None, epoch_duration: 0, writes: Vec::new() }
    }

    pub fn init(&mut self, admin: Address, epoch_duration: u32) -> (r: Result<(), Error>)
        ensures
            forall|t: Seq<char>| final(self).task(t) == old(self).task(t),
            r == if old(self).admin() is Some {
                Err(Error::AlreadyInitialized)
            } else if epoch_duration == 0 {
                Err(Error::InvalidEpochDuration)
            } else {
                Ok(())
            },
            r is Ok ==> final(self).admin() == Some(admin) && final(self).epoch_duration()
                == epoch_duration,
            r is Err ==> final(self).admin() == old(self).admin() && final(self).epoch_duration()
                == old(self).epoch_duration(),
    {
        if self.admin.is_some() {
            return Err(Error::AlreadyInitialized);
        }
        if epoch_duration == 0 {
            return Err(Error::InvalidEpochDuration);
        }
        self.admin = Some(admin);
        self.epoch_duration = epoch_duration;
        Ok(())
    }

    /// The epoch that ledger `sequence` falls in.
    pub fn current_epoch(&self, sequence: u32) -> (r: u64)
        ensures
            r == epoch_of(sequence, self.epoch_duration()),
    {
        if self.epoch_duration == 0 {
            return 0;
        }
        (sequence / self.epoch_duration) as u64
    }

    fn find(&self, task_id: &String) -> (r: Option<TaskData>)
        ensures
            r == self.task(task_id@),
    {
        let mut i: usize = self.writes.len();
        assert(self.writes@.take(i as int) == self.writes@);
        while i > 0
            invariant
                i <= self.writes@.len(),
                task_in(self.writes@, task_id@) == task_in(self.writes@.take(i as int), task_id@),
            decreases i,
        {
            let ghost pre = self.writes@.take(i as int);
            assert(pre.drop_last() == self.writes@.take(i - 1));
            if self.writes[i - 1].task_id == *task_id {
                return Some(self.writes[i - 1].data);
            }
            i = i - 1;
        }
        None
    }

    /// Schedules, or reschedules, a task for `epoch`, which must not be past
    /// at ledger `sequence`; an executed task cannot be rescheduled.
    pub fn schedule_task(&mut self, task_id: String, epoch: u64, payload_hash: [u8; 32], sequence: u32) -> (r:
        Result<(), Error>)
        ensures
            final(self).admin() == old(self).admin(),
            final(self).epoch_duration() == old(self).epoch_duration(),
            r == if epoch < epoch_of(sequence, old(self).epoch_duration()) {
                Err(Error::InvalidScheduleEpoch)
            } else if old(self).task(task_id@) matches Some(t) && t.executed {
                Err(Error::TaskAlreadyExecuted)
            } else {
                Ok(())
            },
            forall|t: Seq<char>| #[trigger]
                final(self).task(t) == if r is Ok && t == task_id@ {
                    Some(TaskData { epoch, payload_hash, executed: false })
                } else {
                    old(self).task(t)
                },
    {
        let current = self.current_epoch(sequence);
        if epoch < current {
            return Err(Error::InvalidScheduleEpoch);
        }
        match self.find(&task_id) {
            Some(t) => {
                if t.executed {
                    return Err(Error::TaskAlreadyExecuted);
                }
            },
            None => {},
        }
        let ghost before = self.writes@;
        self.writes.push(TaskWrite { task_id, data: TaskData { epoch, payload_hash, executed: false } });
        assert(self.writes@.drop_last() == before);
        Ok(())
    }

    /// Marks a due task executed, as of ledger `sequence`.
    pub fn mark_executed(&mut self, admin: Address, task_id: String, sequence: u32) -> (r: Result<
        (),
        Error,
    >)
        ensures
            final(self).admin() == old(self).admin(),
            final(self).epoch_duration() == old(self).epoch_duration(),
            r == match old(self).admin() {
                None => Err(Error::NotInitialized),
                Some(a) => if a != admin {
                    Err(Error::NotAuthorized)
                } else {
                    match old(self).task(task_id@) {
                        None => Err(Error::TaskNotFound),
                        Some(t) => if t.executed {
                            Err(Error::TaskAlreadyExecuted)
                        } else if epoch_of(sequence, old(self).epoch_duration()) < t.epoch {
                            Err(Error::EpochNotReached)
                        } else {
                            Ok(())
                        },
                    }
                },
            },
            forall|t: Seq<char>| #[trigger]
                final(self).task(t) == if r is Ok && t == task_id@ {
                    Some(TaskData { executed: true, ..old(self).task(t).unwrap() })
                } else {
                    old(self).task(t)
                },
    {
        match self.admin {
            None => return Err(Error::NotInitialized),
            Some(a) => {
                if a != admin {
                    return Err(Error::NotAuthorized);
                }
            },
        }
        let current = self.current_epoch(sequence);
        let task = match self.find(&task_id) {
            None => return Err(Error::TaskNotFound),
            Some(t) => t,
        };
        if task.executed {
            return Err(Error::TaskAlreadyExecuted);
        }
        if current < task.epoch {
            return Err(Error::EpochNotReached);
        }
        let ghost before = self.writes@;
        self.writes.push(TaskWrite { task_id, data: TaskData { executed: true, ..task } });
        assert(self.writes@.drop_last() == before);
        Ok(())
    }

    /// The data of task `task_id`, if it was ever scheduled.
    pub fn task_state(&self, task_id: String) -> (r: Option<TaskData>)
        ensures
            r == self.task(task_id@),
    {
        self.find(&task_id)
    }
}

} // verus!
