//! A registry of named contracts with versions, and a log of calls between
//! contracts.
use crate::Address;
use vstd::prelude::*;
use vstd::utf8::encode_utf8;

verus! {

/// The longest admitted contract name, in bytes.
pub const MAX_NAME_BYTES: usize = 32;

/// Why an interaction-library operation was refused.
#[derive(Clone, Copy, Debug, PartialEq, Eq, Structural)]
pub enum Error {
    AlreadyInitialized,
    NotInitialized,
    NotAuthorized,
    /// The name is empty or longer than `MAX_NAME_BYTES`.
    InvalidName,
    InvalidVersion,
    NameAlreadyRegistered,
    ContractNotFound,
    ContractInactive,
    LogNotFound,
    Overflow,
}

#[derive(Clone, Debug)]
pub struct ContractEntry {
    pub name: String,
    pub address: Address,
    pub version: u32,
    pub active: bool,
}

#[derive(Clone, Debug)]
pub struct CallRecord {
    pub callee_name: String,
    pub caller: Address,
    pub timestamp: u64,
    pub success: bool,
}

/// The position of the entry named `name`, or -1.
pub open spec fn position(s: Seq<ContractEntry>, name: Seq<char>) -> int
    decreases s.len(),
{
    if s.len() == 0 {
        -1
    } else if s.last().name@ == name {
        s.len() - 1
    } else {
        position(s.drop_last(), name)
    }
}

pub proof fn lemma_position(s: Seq<ContractEntry>, name: Seq<char>)
    ensures
        -1 <= position(s, name) < s.len(),
        position(s, name) >= 0 ==> s[position(s, name)].name@ == name,
    decreases s.len(),
{
    if s.len() > 0 {
        lemma_position(s.drop_last(), name);
    }
}

fn copy_entry(e: &ContractEntry) -> (c: ContractEntry)
    ensures
        c == *e,
{
    ContractEntry { name: e.name.clone(), address: e.address, version: e.version, active: e.active }
}

/// The interaction library contract.
pub struct ContractInteractionLibrary {
    admin: Option<Address>,
    registry: Vec<ContractEntry>,
    calls: Vec<CallRecord>,
}

impl ContractInteractionLibrary {
    pub closed spec fn admin(&self) -> Option<Address> {
        self.admin
    }

    /// The registered contracts, in the order registered.
    pub closed spec fn registry(&self) -> Seq<ContractEntry> {
        self.registry@
    }

    /// The logged calls; a call's id is its index.
    pub closed spec fn calls(&self) -> Seq<CallRecord> {
        self.calls@
    }

    /// The entry named `name`, if registered.
    pub open spec fn entry(&self, name: Seq<char>) -> Option<ContractEntry> {
        if position(self.registry(), name) >= 0 {
            Some(self.registry()[position(self.registry(), name)])
        } else {
            None
        }
    }

    pub open spec fn admin_check(&self, caller: Address) -> Option<Error> {
        match self.admin() {
            None => Some(Error::NotInitialized),
            Some(a) => if a != caller {
                Some(Error::NotAuthorized)
            } else {
                None
            },
        }
    }

    pub fn new() -> (r: Self)
        ensures
            r.admin() is None,
            r.registry() == Seq::<ContractEntry>::empty(),
            r.calls() == Seq::<CallRecord>::empty(),
    {
        ContractInteractionLibrary { admin: None, registry: Vec::new(), calls: Vec::new() }
    }

    pub fn init(&mut self, admin: Address) -> (r: Result<(), Error>)
        ensures
            final(self).registry() == old(self).registry(),
            final(self).calls() == old(self).calls(),
            old(self).admin() is Some ==> r == Err::<(), Error>(Error::AlreadyInitialized)
                && final(self).admin() == old(self).admin(),
            old(self).admin() is None ==> r is Ok && final(self).admin() == Some(admin),
    {
        if self.admin.is_some() {
            return Err(Error::AlreadyInitialized);
        }
        self.admin = Some(admin);
        Ok(())
    }

    fn require_admin(&self, caller: Address) -> (r: Result<(), Error>)
        ensures
            r == match self.admin_check(caller) {
                Some(e) => Err(e),
                None => Ok::<(), Error>(()),
            },
    {
        match self.admin {
            None => Err(Error::NotInitialized),
            Some(a) => if a != caller {
                Err(Error::NotAuthorized)
            } else {
                Ok(())
            },
        }
    }

    fn find(&self, name: &String) -> (r: Option<usize>)
        ensures
            r matches Some(i) ==> i == position(self.registry(), name@),
            r is None ==> position(self.registry(), name@) == -1,
    {
        let mut i: usize = self.registry.len();
        assert(self.registry@.take(i as int) == self.registry@);
        while i > 0
            invariant
                i <= self.registry@.len(),
                position(self.registry@, name@) == position(self.registry@.take(i as int), name@),
            decreases i,
        {
            let ghost pre = self.registry@.take(i as int);
            assert(pre.drop_last() == self.registry@.take(i - 1));
            if self.registry[i - 1].name == *name {
                return Some(i - 1);
            }
            i = i - 1;
        }
        None
    }

    /// Registers a new, active contract under a name of 1 to 32 bytes.
    pub fn register_contract(&mut self, admin: Address, name: String, address: Address, version: u32) -> (r:
        Result<(), Error>)
        ensures
            final(self).admin() == old(self).admin(),
            final(self).calls() == old(self).calls(),
            r == match old(self).admin_check(admin) {
                Some(e) => Err(e),
                None => if encode_utf8(name@).len() == 0 || encode_utf8(name@).len()
                    > MAX_NAME_BYTES {
                    Err(Error::InvalidName)
                } else if version == 0 {
                    Err(Error::InvalidVersion)
                } else if old(self).entry(name@) is Some {
                    Err(Error::NameAlreadyRegistered)
                } else {
                    Ok(())
                },
            },
            r is Ok ==> final(self).registry() == old(self).registry().push(
                ContractEntry { name, address, version, active: true },
            ),
            r is Err ==> final(self).registry() == old(self).registry(),
    {
        match self.require_admin(admin) {
            Err(e) => return Err(e),
            Ok(()) => {},
        }
        let len = name.as_str().as_bytes().len();
        if len == 0 || len > MAX_NAME_BYTES {
            return Err(Error::InvalidName);
        }
        if version == 0 {
            return Err(Error::InvalidVersion);
        }
        if self.find(&name).is_some() {
            return Err(Error::NameAlreadyRegistered);
        }
        self.registry.push(ContractEntry { name, address, version, active: true });
        Ok(())
    }

    fn replace(&mut self, i: usize, entry: ContractEntry)
        requires
            i < old(self).registry@.len(),
        ensures
            final(self).admin() == old(self).admin(),
            final(self).calls() == old(self).calls(),
            final(self).registry() == old(self).registry().update(i as int, entry),
    {
        self.registry.remove(i);
        self.registry.insert(i, entry);
        assert(self.registry@ =~= old(self).registry@.update(i as int, entry));
    }

    /// Marks the contract named `name` inactive.
    pub fn deactivate_contract(&mut self, admin: Address, name: String) -> (r: Result<(), Error>)
        ensures
            final(self).admin() == old(self).admin(),
            final(self).calls() == old(self).calls(),
            r == match old(self).admin_check(admin) {
                Some(e) => Err(e),
                None => if old(self).entry(name@) is None {
                    Err(Error::ContractNotFound)
                } else {
                    Ok(())
                },
            },
            r is Ok ==> final(self).registry() == old(self).registry().update(
                position(old(self).registry(), name@),
                ContractEntry { active: false, ..old(self).entry(name@).unwrap() },
            ),
            r is Err ==> final(self).registry() == old(self).registry(),
    {
        proof {
            lemma_position(self.registry@, name@);
        }
        match self.require_admin(admin) {
            Err(e) => return Err(e),
            Ok(()) => {},
        }
        let i = match self.find(&name) {
            None => return Err(Error::ContractNotFound),
            Some(i) => i,
        };
        let entry = copy_entry(&self.registry[i]);
        self.replace(i, ContractEntry { active: false, ..entry });
        Ok(())
    }

    /// Points the contract named `name` at a new address and version, and
    /// makes it active again.
    pub fn upgrade_contract(&mut self, admin: Address, name: String, new_address: Address, new_version: u32) -> (r:
        Result<(), Error>)
        ensures
            final(self).admin() == old(self).admin(),
            final(self).calls() == old(self).calls(),
            r == match old(self).admin_check(admin) {
                Some(e) => Err(e),
                None => if new_version == 0 {
                    Err(Error::InvalidVersion)
                } else if old(self).entry(name@) is None {
                    Err(Error::ContractNotFound)
                } else {
                    Ok(())
                },
            },
            r is Ok ==> final(self).registry() == old(self).registry().update(
                position(old(self).registry(), name@),
                ContractEntry {
                    address: new_address,
                    version: new_version,
                    active: true,
                    ..old(self).entry(name@).unwrap()
                },
            ),
            r is Err ==> final(self).registry() == old(self).registry(),
    {
        proof {
            lemma_position(self.registry@, name@);
        }
        match self.require_admin(admin) {
            Err(e) => return Err(e),
            Ok(()) => {},
        }
        if new_version == 0 {
            return Err(Error::InvalidVersion);
        }
        let i = match self.find(&name) {
            None => return Err(Error::ContractNotFound),
            Some(i) => i,
        };
        let entry = copy_entry(&self.registry[i]);
        self.replace(
            i,
            ContractEntry { address: new_address, version: new_version, active: true, ..entry },
        );
        Ok(())
    }

    /// The entry named `name`.
    pub fn get_contract(&self, name: String) -> (r: Result<ContractEntry, Error>)
        ensures
            r == match self.entry(name@) {
                Some(e) => Ok(e),
                None => Err(Error::ContractNotFound),
            },
    {
        proof {
            lemma_position(self.registry@, name@);
        }
        match self.find(&name) {
            None => Err(Error::ContractNotFound),
            Some(i) => Ok(copy_entry(&self.registry[i])),
        }
    }

    /// The address of the active contract named `name`.
    pub fn resolve(&self, name: String) -> (r: Result<Address, Error>)
        ensures
            r == match self.entry(name@) {
                None => Err(Error::ContractNotFound),
                Some(e) => if e.active {
                    Ok(e.address)
                } else {
                    Err(Error::ContractInactive)
                },
            },
    {
        let entry = match self.get_contract(name) {
            Err(e) => return Err(e),
            Ok(e) => e,
        };
        if !entry.active {
            return Err(Error::ContractInactive);
        }
        Ok(entry.address)
    }

    /// Logs a call by `caller` to `callee_name` at `timestamp`; returns its id.
    pub fn log_call(&mut self, callee_name: String, caller: Address, success: bool, timestamp: u64) -> (r:
        Result<u64, Error>)
        ensures
            final(self).admin() == old(self).admin(),
            final(self).registry() == old(self).registry(),
            r == if old(self).calls().len() >= u64::MAX {
                Err(Error::Overflow)
            } else {
                Ok(old(self).calls().len() as u64)
            },
            r is Ok ==> final(self).calls() == old(self).calls().push(
                CallRecord { callee_name, caller, timestamp, success },
            ),
            r is Err ==> final(self).calls() == old(self).calls(),
    {
        if self.calls.len() as u128 >= u64::MAX as u128 {
            return Err(Error::Overflow);
        }
        let id = self.calls.len() as u64;
        self.calls.push(CallRecord { callee_name, caller, timestamp, success });
        Ok(id)
    }

    /// The call logged under `log_id`.
    pub fn get_call_log(&self, log_id: u64) -> (r: Result<CallRecord, Error>)
        ensures
            r == if log_id < self.calls().len() {
                Ok(self.calls()[log_id as int])
            } else {
                Err(Error::LogNotFound)
            },
    {
        if log_id as u128 >= self.calls.len() as u128 {
            return Err(Error::LogNotFound);
        }
        let c = &self.calls[log_id as usize];
        Ok(CallRecord {
            callee_name: c.callee_name.clone(),
            caller: c.caller,
            timestamp: c.timestamp,
            success: c.success,
        })
    }
}

} // verus!
