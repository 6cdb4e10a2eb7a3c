//! Data requests per feed, fulfilled once by whitelisted oracle sources.
use crate::Address;
use vstd::prelude::*;

verus! {

#[derive(Clone, Copy, Debug, PartialEq, Eq, Structural)]
pub enum Error {
    AlreadyInitialized,
    NotAuthorized,
    RequestExists,
    RequestNotFound,
    AlreadyFulfilled,
    InvalidInput,
    OracleNotWhitelisted,
}

#[derive(Clone, Debug)]
pub struct OracleRequest {
    pub feed_id: [u8; 32],
    pub fulfilled: bool,
    pub payload: Vec<u8>,
}

/// The plain value of a request: its feed, whether it was fulfilled, and its
/// payload.
pub type RequestView = (Seq<u8>, bool, Seq<u8>);

pub open spec fn request_view(r: OracleRequest) -> RequestView {
    (r.feed_id@, r.fulfilled, r.payload@)
}

/// A write of a request, in the order the writes happened.
pub struct RequestWrite {
    pub request_id: [u8; 32],
    pub request: OracleRequest,
}

/// A write of a feed's latest payload.
pub struct FeedWrite {
    pub feed_id: [u8; 32],
    pub payload: Vec<u8>,
}

pub open spec fn request_in(log: Seq<RequestWrite>, request_id: Seq<u8>) -> Option<RequestView>
    decreases log.len(),
{
    if log.len() == 0 {
        None
    } else if log.last().request_id@ == request_id {
        Some(request_view(log.last().request))
    } else {
        request_in(log.drop_last(), request_id)
    }
}

pub open spec fn latest_in(log: Seq<FeedWrite>, feed_id: Seq<u8>) -> Option<Seq<u8>>
    decreases log.len(),
{
    if log.len() == 0 {
        None
    } else if log.last().feed_id@ == feed_id {
        Some(log.last().payload@)
    } else {
        latest_in(log.drop_last(), feed_id)
    }
}

/// Whether all 32 bytes are zero.
pub open spec fn is_zero(b: Seq<u8>) -> bool {
    forall|i: int| 0 <= i < b.len() ==> b[i] == 0
}

fn same_bytes(a: &[u8; 32], b: &[u8; 32]) -> (r: bool)
    ensures
        r == (a@ == b@),
{
    let mut i: usize = 0;
    while i < 32
        invariant
            i <= 32,
            forall|j: int| 0 <= j < i ==> a@[j] == b@[j],
        decreases 32 - i,
    {
        if a[i] != b[i] {
            return false;
        }
        i = i + 1;
    }
    assert(a@ =~= b@);
    true
}

fn all_zero(a: &[u8; 32]) -> (r: bool)
    ensures
        r == is_zero(a@),
{
    let mut i: usize = 0;
    while i < 32
        invariant
            i <= 32,
            forall|j: int| 0 <= j < i ==> a@[j] == 0,
        decreases 32 - i,
    {
        if a[i] != 0 {
            return false;
        }
        i = i + 1;
    }
    true
}

fn copy_bytes(v: &Vec<u8>) -> (r: Vec<u8>)
    ensures
        r@ == v@,
{
    let mut out: Vec<u8> = Vec::new();
    let mut i: usize = 0;
    while i < v.len()
        invariant
            i <= v@.len(),
            out@ == v@.take(i as int),
        decreases v@.len() - i,
    {
        out.push(v[i]);
        i = i + 1;
        assert(out@ =~= v@.take(i as int));
    }
    assert(v@.take(v@.len() as int) == v@);
    out
}

/// The oracle integration contract.
pub struct OracleIntegration {
    admin: Option<Address>,
    sources: Vec<Address>,
    requests: Vec<RequestWrite>,
    feeds: Vec<FeedWrite>,
}

impl OracleIntegration {
    pub closed spec fn admin(&self) -> Option<Address> {
        self.admin
    }

    /// The oracle identities allowed to fulfil requests.
    pub closed spec fn sources(&self) -> Seq<Address> {
        self.sources@
    }

    pub closed spec fn request(&self, request_id: Seq<u8>) -> Option<RequestView> {
        request_in(self.requests@, request_id)
    }

    /// The payload that last fulfilled a request of `feed_id`.
    pub closed spec fn latest_payload(&self, feed_id: Seq<u8>) -> Option<Seq<u8>> {
        latest_in(self.feeds@, feed_id)
    }

    pub fn new() -> (r: Self)
        ensures
            r.admin() is None,
            r.sources() == Seq::<Address>::empty(),
            forall|id: Seq<u8>| r.request(id) is None,
            forall|f: Seq<u8>| r.latest_payload(f) is None,
    {
        OracleIntegration { admin: None, sources: Vec::new(), requests: Vec::new(), feeds: Vec::new() }
    }

    /// Sets the admin and the non-empty list of oracle sources once.
    pub fn init(&mut self, admin: Address, oracle_sources_config: Vec<Address>) -> (r: Result<(), Error>)
        ensures
            forall|id: Seq<u8>| final(self).request(id) == old(self).request(id),
            forall|f: Seq<u8>| final(self).latest_payload(f) == old(self).latest_payload(f),
            r == if old(self).admin() is Some {
                Err(Error::AlreadyInitialized)
            } else if oracle_sources_config@.len() == 0 {
                Err(Error::InvalidInput)
            } else {
                Ok(())
            },
            r is Ok ==> final(self).admin() == Some(admin) && final(self).sources()
                == oracle_sources_config@,
            r is Err ==> final(self).admin() == old(self).admin() && final(self).sources() == old(
                self,
            ).sources(),
    {
        if self.admin.is_some() {
            return Err(Error::AlreadyInitialized);
        }
        if oracle_sources_config.len() == 0 {
            return Err(Error::InvalidInput);
        }
        self.admin = Some(admin);
        self.sources = oracle_sources_config;
        Ok(())
    }

    fn find_request(&self, request_id: &[u8; 32]) -> (r: Option<usize>)
        ensures
            r is None ==> self.request(request_id@) is None,
            r matches Some(i) ==> i < self.requests@.len() && self.request(request_id@) == Some(
                request_view(self.requests@[i as int].request),
            ),
    {
        let mut i: usize = self.requests.len();
        assert(self.requests@.take(i as int) == self.requests@);
        while i > 0
            invariant
                i <= self.requests@.len(),
                request_in(self.requests@, request_id@) == request_in(
                    self.requests@.take(i as int),
                    request_id@,
                ),
            decreases i,
        {
            let ghost pre = self.requests@.take(i as int);
            assert(pre.drop_last() == self.requests@.take(i - 1));
            if same_bytes(&self.requests[i - 1].request_id, request_id) {
                return Some(i - 1);
            }
            i = i - 1;
        }
        None
    }

    /// Opens a request for data of `feed_id`; both ids must be non-zero and
    /// the request id new.
    pub fn request_data(&mut self, caller: Address, feed_id: [u8; 32], request_id: [u8; 32]) -> (r:
        Result<(), Error>)
        ensures
            final(self).admin() == old(self).admin(),
            final(self).sources() == old(self).sources(),
            forall|f: Seq<u8>| final(self).latest_payload(f) == old(self).latest_payload(f),
            r == if is_zero(feed_id@) || is_zero(request_id@) {
                Err(Error::InvalidInput)
            } else if old(self).request(request_id@) is Some {
                Err(Error::RequestExists)
            } else {
                Ok(())
            },
            forall|id: Seq<u8>| #[trigger]
                final(self).request(id) == if r is Ok && id == request_id@ {
                    Some((feed_id@, false, Seq::<u8>::empty()))
                } else {
                    old(self).request(id)
                },
    {
        if all_zero(&feed_id) || all_zero(&request_id) {
            return Err(Error::InvalidInput);
        }
        if self.find_request(&request_id).is_some() {
            return Err(Error::RequestExists);
        }
        let ghost before = self.requests@;
        self.requests.push(
            RequestWrite {
                request_id,
                request: OracleRequest { feed_id, fulfilled: false, payload: Vec::new() },
            },
        );
        assert(self.requests@.drop_last() == before);
        Ok(())
    }

    /// A whitelisted source fulfils an open request with a non-empty payload,
    /// which also becomes the latest payload of the request's feed. The
    /// accompanying proof bytes are not examined.
    pub fn fulfill_data(
        &mut self,
        caller: Address,
        request_id: [u8; 32],
        payload: Vec<u8>,
        proof_bytes: Vec<u8>,
    ) -> (r: Result<(), Error>)
        ensures
            final(self).admin() == old(self).admin(),
            final(self).sources() == old(self).sources(),
            r == if payload@.len() == 0 {
                Err(Error::InvalidInput)
            } else if old(self).admin() is None {
                Err(Error::NotAuthorized)
            } else if !old(self).sources().contains(caller) {
                Err(Error::OracleNotWhitelisted)
            } else {
                match old(self).request(request_id@) {
                    None => Err(Error::RequestNotFound),
                    Some(req) => if req.1 {
                        Err(Error::AlreadyFulfilled)
                    } else {
                        Ok(())
                    },
                }
            },
            forall|id: Seq<u8>| #[trigger]
                final(self).request(id) == if r is Ok && id == request_id@ {
                    Some((old(self).request(id).unwrap().0, true, payload@))
                } else {
                    old(self).request(id)
                },
            forall|f: Seq<u8>| #[trigger]
                final(self).latest_payload(f) == if r is Ok && f == old(self).request(
                    request_id@,
                ).unwrap().0 {
                    Some(payload@)
                } else {
                    old(self).latest_payload(f)
                },
    {
        if payload.len() == 0 {
            return Err(Error::InvalidInput);
        }
        if self.admin.is_none() {
            return Err(Error::NotAuthorized);
        }
        let mut whitelisted = false;
        let mut k: usize = 0;
        while k < self.sources.len()
            invariant
                k <= self.sources@.len(),
                whitelisted == exists|j: int| 0 <= j < k && self.sources@[j] == caller,
            decreases self.sources@.len() - k,
        {
            if self.sources[k] == caller {
                whitelisted = true;
            }
            k = k + 1;
        }
        if !whitelisted {
            return Err(Error::OracleNotWhitelisted);
        }
        let idx = match self.find_request(&request_id) {
            None => return Err(Error::RequestNotFound),
            Some(i) => i,
        };
        if self.requests[idx].request.fulfilled {
            return Err(Error::AlreadyFulfilled);
        }
        let feed_id = self.requests[idx].request.feed_id;
        let stored = copy_bytes(&payload);
        let ghost before = self.requests@;
        self.requests.push(
            RequestWrite {
                request_id,
                request: OracleRequest { feed_id, fulfilled: true, payload: stored },
            },
        );
        assert(self.requests@.drop_last() == before);
        let ghost feeds_before = self.feeds@;
        self.feeds.push(FeedWrite { feed_id, payload });
        assert(self.feeds@.drop_last() == feeds_before);
        Ok(())
    }

    /// The payload that last fulfilled a request of `feed_id`.
    pub fn latest(&self, feed_id: [u8; 32]) -> (r: Option<Vec<u8>>)
        ensures
            r is Some == self.latest_payload(feed_id@) is Some,
            r matches Some(p) ==> Some(p@) == self.latest_payload(feed_id@),
    {
        let mut i: usize = self.feeds.len();
        assert(self.feeds@.take(i as int) == self.feeds@);
        while i > 0
            invariant
                i <= self.feeds@.len(),
                latest_in(self.feeds@, feed_id@) == latest_in(self.feeds@.take(i as int), feed_id@),
            decreases i,
        {
            let ghost pre = self.feeds@.take(i as int);
            assert(pre.drop_last() == self.feeds@.take(i - 1));
            if same_bytes(&self.feeds[i - 1].feed_id, &feed_id) {
                return Some(copy_bytes(&self.feeds[i - 1].payload));
            }
            i = i - 1;
        }
        None
    }

    /// The request `request_id`, if it was opened.
    pub fn get_request(&self, request_id: [u8; 32]) -> (r: Option<OracleRequest>)
        ensures
            r is Some == self.request(request_id@) is Some,
            r matches Some(q) ==> Some(request_view(q)) == self.request(request_id@),
    {
        match self.find_request(&request_id) {
            None => None,
            Some(i) => {
                let q = &self.requests[i].request;
                Some(OracleRequest { feed_id: q.feed_id, fulfilled: q.fulfilled, payload: copy_bytes(&q.payload) })
            },
        }
    }
}

} // verus!
