//! Versioned metadata of contracts, with every version kept.
use crate::Address;
use std::collections::HashMap;
use vstd::prelude::*;

verus! {

#[derive(Clone, Copy, Debug, PartialEq, Eq, Structural)]
pub enum Error {
    AlreadyInitialized,
    NotInitialized,
    NotAuthorized,
    ContractAlreadyRegistered,
    ContractNotFound,
    InvalidVersion,
}

#[derive(Clone, Debug)]
pub struct MetadataRecord {
    pub version: u32,
    pub schema_hash: [u8; 32],
    pub docs_uri: String,
    pub updated_at: u64,
}

fn copy_record(r: &MetadataRecord) -> (c: MetadataRecord)
    ensures
        c == *r,
{
    MetadataRecord {
        version: r.version,
        schema_hash: r.schema_hash,
        docs_uri: r.docs_uri.clone(),
        updated_at: r.updated_at,
    }
}

/// The metadata registry contract.
pub struct ContractMetadataRegistry {
    admin: Option<Address>,
    histories: HashMap<u64, Vec<MetadataRecord>>,
}

impl ContractMetadataRegistry {
    pub closed spec fn admin(&self) -> Option<Address> {
        self.admin
    }

    /// Every version recorded for `contract_id`, oldest first; empty if the
    /// contract was never registered.
    pub closed spec fn history_of(&self, contract_id: Address) -> Seq<MetadataRecord> {
        if self.histories@.contains_key(contract_id.0) {
            self.histories@[contract_id.0]@
        } else {
            Seq::empty()
        }
    }

    /// A registered contract has at least one version.
    pub closed spec fn wf(&self) -> bool {
        forall|id: u64| #[trigger]
            self.histories@.contains_key(id) ==> self.histories@[id]@.len() > 0
    }

    pub fn new() -> (r: Self)
        ensures
            r.wf(),
            r.admin() is None,
            forall|c: Address| r.history_of(c) == Seq::<MetadataRecord>::empty(),
    {
        ContractMetadataRegistry { admin: None, histories: HashMap::new() }
    }

    pub fn init(&mut self, admin: Address) -> (r: Result<(), Error>)
        requires
            old(self).wf(),
        ensures
            final(self).wf(),
            forall|c: Address| final(self).history_of(c) == old(self).history_of(c),
            old(self).admin() is Some ==> r == Err::<(), Error>(Error::AlreadyInitialized)
                && final(self).admin() == old(self).admin(),
            old(self).admin() is None ==> r is Ok && final(self).admin() == Some(admin),
    {
        if self.admin.is_some() {
            return Err(Error::AlreadyInitialized);
        }
        self.admin = Some(admin);
        Ok(())
    }

    /// Registers the first version of a contract's metadata at `now`.
    pub fn register_metadata(
        &mut self,
        admin: Address,
        contract_id: Address,
        version: u32,
        schema_hash: [u8; 32],
        docs_uri: String,
        now: u64,
    ) -> (r: Result<(), Error>)
        requires
            old(self).wf(),
        ensures
            final(self).wf(),
            final(self).admin() == old(self).admin(),
            r == match old(self).admin() {
                None => Err(Error::NotInitialized),
                Some(a) => if a != admin {
                    Err(Error::NotAuthorized)
                } else if version == 0 {
                    Err(Error::InvalidVersion)
                } else if old(self).history_of(contract_id).len() > 0 {
                    Err(Error::ContractAlreadyRegistered)
                } else {
                    Ok(())
                },
            },
            forall|c: Address| #[trigger]
                final(self).history_of(c) == if r is Ok && c.0 == contract_id.0 {
                    seq![MetadataRecord { version, schema_hash, docs_uri, updated_at: now }]
                } else {
                    old(self).history_of(c)
                },
    {
        broadcast use vstd::std_specs::hash::group_hash_axioms;

        match self.admin {
            None => return Err(Error::NotInitialized),
            Some(a) => {
                if a != admin {
                    return Err(Error::NotAuthorized);
                }
            },
        }
        if version == 0 {
            return Err(Error::InvalidVersion);
        }
        if self.histories.contains_key(&contract_id.0) {
            return Err(Error::ContractAlreadyRegistered);
        }
        let mut h: Vec<MetadataRecord> = Vec::new();
        h.push(MetadataRecord { version, schema_hash, docs_uri, updated_at: now });
        self.histories.insert(contract_id.0, h);
        Ok(())
    }

    /// Records a newer version of a registered contract's metadata at `now`.
    pub fn update_metadata(
        &mut self,
        admin: Address,
        contract_id: Address,
        version: u32,
        schema_hash: [u8; 32],
        docs_uri: String,
        now: u64,
    ) -> (r: Result<(), Error>)
        requires
            old(self).wf(),
        ensures
            final(self).wf(),
            final(self).admin() == old(self).admin(),
            r == match old(self).admin() {
                None => Err(Error::NotInitialized),
                Some(a) => if a != admin {
                    Err(Error::NotAuthorized)
                } else if old(self).history_of(contract_id).len() == 0 {
                    Err(Error::ContractNotFound)
                } else if version <= old(self).history_of(contract_id).last().version {
                    Err(Error::InvalidVersion)
                } else {
                    Ok(())
                },
            },
            forall|c: Address| #[trigger]
                final(self).history_of(c) == if r is Ok && c.0 == contract_id.0 {
                    old(self).history_of(c).push(
                        MetadataRecord { version, schema_hash, docs_uri, updated_at: now },
                    )
                } else {
                    old(self).history_of(c)
                },
    {
        broadcast use vstd::std_specs::hash::group_hash_axioms;

        match self.admin {
            None => return Err(Error::NotInitialized),
            Some(a) => {
                if a != admin {
                    return Err(Error::NotAuthorized);
                }
            },
        }
        let current_version = match self.histories.get(&contract_id.0) {
            None => return Err(Error::ContractNotFound),
            Some(h) => h[h.len() - 1].version,
        };
        if version <= current_version {
            return Err(Error::InvalidVersion);
        }
        let mut h = match self.histories.remove(&contract_id.0) {
            Some(h) => h,
            None => Vec::new(),
        };
        h.push(MetadataRecord { version, schema_hash, docs_uri, updated_at: now });
        self.histories.insert(contract_id.0, h);
        Ok(())
    }

    /// The current metadata of `contract_id`, if registered.
    pub fn metadata_of(&self, contract_id: Address) -> (r: Option<MetadataRecord>)
        requires
            self.wf(),
        ensures
            r == if self.history_of(contract_id).len() > 0 {
                Some(self.history_of(contract_id).last())
            } else {
                None
            },
    {
        broadcast use vstd::std_specs::hash::group_hash_axioms;

        match self.histories.get(&contract_id.0) {
            None => None,
            Some(h) => Some(copy_record(&h[h.len() - 1])),
        }
    }

    /// Every version of `contract_id`'s metadata, oldest first.
    pub fn history(&self, contract_id: Address) -> (r: Vec<MetadataRecord>)
        ensures
            r@ == self.history_of(contract_id),
    {
        broadcast use vstd::std_specs::hash::group_hash_axioms;

        let mut out: Vec<MetadataRecord> = Vec::new();
        match self.histories.get(&contract_id.0) {
            Some(h) => {
                let mut i: usize = 0;
                while i < h.len()
                    invariant
                        i <= h@.len(),
                        out@ == h@.take(i as int),
                    decreases h@.len() - i,
                {
                    out.push(copy_record(&h[i]));
                    i = i + 1;
                    assert(out@ =~= h@.take(i as int));
                }
                assert(h@.take(h@.len() as int) == h@);
            },
            None => {},
        }
        out
    }
}

} // verus!
