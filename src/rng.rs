//! The randomness oracle: one write-once pseudorandom value per request id.
use crate::Address;
use sha2::Digest;
use std::collections::HashMap;
use std::collections::HashSet;
use vstd::prelude::*;

verus! {

/// The SHA-256 digest of a byte string.
pub uninterp spec fn sha256_of(data: Seq<u8>) -> Seq<u8>;

/// Relies on `sha2::Sha256::digest`: the SHA-256 digest of `data`, which
/// depends on the bytes alone.
#[verifier::external_body]
fn sha256(data: &[u8]) -> (r: [u8; 32])
    ensures
        r@ == sha256_of(data@),
{
    sha2::Sha256::digest(data).into()
}

/// The eight big-endian bytes of `x`.
pub open spec fn be_bytes(x: u64) -> Seq<u8> {
    seq![
        (x >> 56u64) as u8,
        (x >> 48u64) as u8,
        (x >> 40u64) as u8,
        (x >> 32u64) as u8,
        (x >> 24u64) as u8,
        (x >> 16u64) as u8,
        (x >> 8u64) as u8,
        x as u8,
    ]
}

/// The unsigned integer whose big-endian encoding is the first eight bytes of `b`.
pub open spec fn be_u64_of(b: Seq<u8>) -> int {
    b[0] * 0x100_0000_0000_0000 + b[1] * 0x1_0000_0000_0000 + b[2] * 0x100_0000_0000
        + b[3] * 0x1_0000_0000 + b[4] * 0x100_0000 + b[5] * 0x1_0000 + b[6] * 0x100 + b[7]
}

/// The bytes hashed to derive the value of a request: the seed followed by the
/// big-endian request id.
pub open spec fn preimage(seed: Seq<u8>, request_id: u64) -> Seq<u8> {
    seed + be_bytes(request_id)
}

/// The raw value derived from a seed for a request: the first eight bytes,
/// big-endian, of `SHA-256(seed ‖ be(request_id))`.
pub open spec fn raw_value_of(seed: Seq<u8>, request_id: u64) -> int {
    be_u64_of(sha256_of(preimage(seed, request_id)))
}

/// Reads the first eight bytes of `b` as a big-endian unsigned integer.
pub fn read_be_u64(b: &[u8; 32]) -> (r: u64)
    ensures
        r == be_u64_of(b@),
{
    (b[0] as u64) * 0x100_0000_0000_0000u64 + (b[1] as u64) * 0x1_0000_0000_0000u64 + (b[2] as u64)
        * 0x100_0000_0000u64 + (b[3] as u64) * 0x1_0000_0000u64 + (b[4] as u64) * 0x100_0000u64 + (
    b[5] as u64) * 0x1_0000u64 + (b[6] as u64) * 0x100u64 + (b[7] as u64)
}

/// Derives the raw value of `request_id` from `seed`; a pure function of the two.
pub fn derive_raw_value(seed: &[u8; 32], request_id: u64) -> (r: u64)
    ensures
        r == raw_value_of(seed@, request_id),
{
    let mut buf: Vec<u8> = Vec::new();
    let mut i: usize = 0;
    while i < 32
        invariant
            i <= 32,
            buf@ == seed@.take(i as int),
        decreases 32 - i,
    {
        buf.push(seed[i]);
        i = i + 1;
        assert(buf@ =~= seed@.take(i as int));
    }
    buf.push((request_id >> 56u64) as u8);
    buf.push((request_id >> 48u64) as u8);
    buf.push((request_id >> 40u64) as u8);
    buf.push((request_id >> 32u64) as u8);
    buf.push((request_id >> 24u64) as u8);
    buf.push((request_id >> 16u64) as u8);
    buf.push((request_id >> 8u64) as u8);
    buf.push(request_id as u8);
    assert(buf@ =~= preimage(seed@, request_id));
    let digest = sha256(buf.as_slice());
    read_be_u64(&digest)
}


/// Why an oracle operation was refused.
#[derive(Clone, Copy, Debug, PartialEq, Eq, Structural)]
pub enum Error {
    AlreadyInitialized,
    NotInitialized,
    NotAuthorized,
    AlreadyFulfilled,
    NotFulfilled,
}

/// What the oracle holds for one request id.
#[derive(Clone, Copy, Debug, PartialEq, Eq, Structural)]
pub struct RandomnessRecord {
    pub fulfilled: bool,
    /// Present exactly when `fulfilled` holds.
    pub raw_value: Option<u64>,
}

/// The oracle's identities, set once at initialisation.
#[derive(Clone, Copy, Debug, PartialEq, Eq, Structural)]
pub struct OracleConfig {
    pub admin: Address,
    /// The only identity permitted to supply seeds.
    pub oracle: Address,
}

/// The randomness oracle.
///
/// A request id is registered implicitly by its first fulfilment: there is no
/// separate request step, and a record exists exactly for the ids fulfilled so
/// far. Records are never removed.
pub struct RandomGenerator {
    config: Option<OracleConfig>,
    requesters: HashSet<u64>,
    records: HashMap<u64, RandomnessRecord>,
}

/// A record as `fulfill` writes it.
pub open spec fn fulfilled_record(raw: u64) -> RandomnessRecord {
    RandomnessRecord { fulfilled: true, raw_value: Some(raw) }
}

impl RandomGenerator {
    /// The configuration, once initialised.
    pub closed spec fn config(&self) -> Option<OracleConfig> {
        self.config
    }

    /// The ids of the identities allowed to read results.
    pub closed spec fn requesters(&self) -> Set<u64> {
        self.requesters@
    }

    /// The records, by request id.
    pub closed spec fn records(&self) -> Map<u64, RandomnessRecord> {
        self.records@
    }

    /// Whether `request_id` has been fulfilled.
    pub open spec fn is_fulfilled(&self, request_id: u64) -> bool {
        self.records().contains_key(request_id) && self.records()[request_id].fulfilled
    }

    /// What `fulfill(caller, request_id, _)` returns.
    pub open spec fn fulfill_outcome(&self, caller: Address, request_id: u64) -> Result<(), Error> {
        match self.config() {
            None => Err(Error::NotInitialized),
            Some(c) => if c.oracle != caller {
                Err(Error::NotAuthorized)
            } else if self.is_fulfilled(request_id) {
                Err(Error::AlreadyFulfilled)
            } else {
                Ok(())
            },
        }
    }

    /// What `read_result(caller, request_id)` returns.
    pub open spec fn read_outcome(&self, caller: Address, request_id: u64) -> Result<u64, Error> {
        if !self.requesters().contains(caller.0) {
            Err(Error::NotAuthorized)
        } else if !self.is_fulfilled(request_id) {
            Err(Error::NotFulfilled)
        } else {
            Ok(self.records()[request_id].raw_value.unwrap())
        }
    }

    /// Every stored record is a fulfilled one.
    pub closed spec fn wf(&self) -> bool {
        forall|id: u64| #[trigger]
            self.records@.contains_key(id) ==> self.records@[id].fulfilled
                && self.records@[id].raw_value.is_some()
    }

    /// An oracle that is not yet initialised and holds no record.
    pub fn new() -> (r: Self)
        ensures
            r.wf(),
            r.config() is None,
            r.requesters() == Set::<u64>::empty(),
            r.records() == Map::<u64, RandomnessRecord>::empty(),
    {
        RandomGenerator { config: None, requesters: HashSet::new(), records: HashMap::new() }
    }

    /// Stores the admin and the trusted oracle identity; fails if already done.
    pub fn init(&mut self, admin: Address, oracle: Address) -> (r: Result<(), Error>)
        requires
            old(self).wf(),
        ensures
            final(self).wf(),
            final(self).requesters() == old(self).requesters(),
            final(self).records() == old(self).records(),
            old(self).config() is Some ==> r == Err::<(), Error>(Error::AlreadyInitialized)
                && final(self).config() == old(self).config(),
            old(self).config() is None ==> r is Ok && final(self).config() == Some(
                OracleConfig { admin, oracle },
            ),
    {
        if self.config.is_some() {
            return Err(Error::AlreadyInitialized);
        }
        self.config = Some(OracleConfig { admin, oracle });
        Ok(())
    }

    /// Adds `requester` to the identities allowed to read results; only the
    /// admin may do so, and adding an identity twice changes nothing.
    pub fn authorize(&mut self, admin: Address, requester: Address) -> (r: Result<(), Error>)
        requires
            old(self).wf(),
        ensures
            final(self).wf(),
            final(self).config() == old(self).config(),
            final(self).records() == old(self).records(),
            r == match old(self).config() {
                None => Err(Error::NotInitialized),
                Some(c) => if c.admin == admin {
                    Ok(())
                } else {
                    Err(Error::NotAuthorized)
                },
            },
            r is Ok ==> final(self).requesters() == old(self).requesters().insert(requester.0),
            r is Err ==> final(self).requesters() == old(self).requesters(),
    {
        broadcast use vstd::std_specs::hash::group_hash_axioms;

        match self.config {
            None => Err(Error::NotInitialized),
            Some(c) => {
                if c.admin != admin {
                    return Err(Error::NotAuthorized);
                }
                self.requesters.insert(requester.0);
                Ok(())
            },
        }
    }

    /// Supplies the seed for `request_id`. Only the trusted oracle may call it,
    /// once per request id; the stored value is `raw_value_of(seed, request_id)`.
    pub fn fulfill(&mut self, caller: Address, request_id: u64, seed: [u8; 32]) -> (r: Result<
        (),
        Error,
    >)
        requires
            old(self).wf(),
        ensures
            final(self).wf(),
            final(self).config() == old(self).config(),
            final(self).requesters() == old(self).requesters(),
            r == old(self).fulfill_outcome(caller, request_id),
            r is Ok ==> final(self).records() == old(self).records().insert(
                request_id,
                fulfilled_record(raw_value_of(seed@, request_id) as u64),
            ),
            r is Err ==> final(self).records() == old(self).records(),
    {
        broadcast use vstd::std_specs::hash::group_hash_axioms;

        match self.config {
            None => Err(Error::NotInitialized),
            Some(c) => {
                if c.oracle != caller {
                    return Err(Error::NotAuthorized);
                }
                match self.records.get(&request_id) {
                    Some(rec) => {
                        if rec.fulfilled {
                            return Err(Error::AlreadyFulfilled);
                        }
                    },
                    None => {},
                }
                let raw = derive_raw_value(&seed, request_id);
                self.records.insert(
                    request_id,
                    RandomnessRecord { fulfilled: true, raw_value: Some(raw) },
                );
                Ok(())
            },
        }
    }

    /// The raw value stored for `request_id`, for a whitelisted caller.
    pub fn read_result(&self, caller: Address, request_id: u64) -> (r: Result<u64, Error>)
        requires
            self.wf(),
        ensures
            r == self.read_outcome(caller, request_id),
    {
        broadcast use vstd::std_specs::hash::group_hash_axioms;

        if !self.requesters.contains(&caller.0) {
            return Err(Error::NotAuthorized);
        }
        match self.records.get(&request_id) {
            Some(rec) => {
                if !rec.fulfilled {
                    return Err(Error::NotFulfilled);
                }
                match rec.raw_value {
                    Some(v) => Ok(v),
                    None => Err(Error::NotFulfilled),
                }
            },
            None => Err(Error::NotFulfilled),
        }
    }

    /// The record of `request_id`, if one was written.
    pub fn get_record(&self, request_id: u64) -> (r: Option<RandomnessRecord>)
        ensures
            r == if self.records().contains_key(request_id) {
                Some(self.records()[request_id])
            } else {
                None
            },
    {
        broadcast use vstd::std_specs::hash::group_hash_axioms;

        match self.records.get(&request_id) {
            Some(rec) => Some(*rec),
            None => None,
        }
    }
}

/// The derivation depends on the seed and the request id alone: equal inputs
/// give the same raw value, and so the same secret in any range.
pub proof fn law_derivation_deterministic(
    seed1: Seq<u8>,
    request_id1: u64,
    seed2: Seq<u8>,
    request_id2: u64,
    min: u32,
    max: u32,
)
    requires
        seed1 == seed2,
        request_id1 == request_id2,
    ensures
        raw_value_of(seed1, request_id1) == raw_value_of(seed2, request_id2),
        crate::number_guess::secret_of(raw_value_of(seed1, request_id1) as u64, min, max)
            == crate::number_guess::secret_of(raw_value_of(seed2, request_id2) as u64, min, max),
{
}

/// Reading a request that was never fulfilled fails with `NotFulfilled`, for
/// every whitelisted reader.
pub proof fn law_read_before_fulfill(o: RandomGenerator, caller: Address, request_id: u64)
    requires
        o.requesters().contains(caller.0),
        !o.is_fulfilled(request_id),
    ensures
        o.read_outcome(caller, request_id) == Err::<u64, Error>(Error::NotFulfilled),
{
}

/// Once `fulfill` has stored a value for a request, fulfilling it again fails
/// for every caller, with `AlreadyFulfilled` for the oracle itself, and (as
/// `fulfill` leaves the records alone when it fails) the stored value stays.
pub proof fn law_fulfill_once(
    before: RandomGenerator,
    after: RandomGenerator,
    oracle: Address,
    request_id: u64,
    seed: Seq<u8>,
    caller: Address,
)
    requires
        before.fulfill_outcome(oracle, request_id) is Ok,
        after.config() == before.config(),
        after.records() == before.records().insert(
            request_id,
            fulfilled_record(raw_value_of(seed, request_id) as u64),
        ),
    ensures
        after.fulfill_outcome(caller, request_id) is Err,
        caller == oracle ==> after.fulfill_outcome(caller, request_id) == Err::<(), Error>(
            Error::AlreadyFulfilled,
        ),
        after.records()[request_id].raw_value == Some(raw_value_of(seed, request_id) as u64),
{
}

} // verus!
