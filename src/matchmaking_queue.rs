//! Player queues per queue id, and matches formed from them.
use crate::Address;
use std::collections::HashMap;
use vstd::prelude::*;

verus! {

/// Why a matchmaking operation was refused.
#[derive(Clone, Copy, Debug, PartialEq, Eq, Structural)]
pub enum Error {
    AlreadyInitialized,
    NotInitialized,
    NotAuthorized,
    PlayerAlreadyInQueue,
    PlayerNotInQueue,
    QueueNotFound,
    EmptyPlayers,
    MatchNotFound,
    Overflow,
}

#[derive(Clone, Debug)]
pub struct MatchQueueState {
    pub queue_id: String,
    pub players: Vec<Address>,
    pub criteria_hash: String,
}

#[derive(Clone, Debug)]
pub struct MatchRecord {
    pub match_id: u64,
    pub queue_id: String,
    pub players: Vec<Address>,
}

/// The plain value of a queue: its id, its players in order, its criteria.
pub type QueueView = (Seq<char>, Seq<Address>, Seq<char>);

pub open spec fn queue_view(q: MatchQueueState) -> QueueView {
    (q.queue_id@, q.players@, q.criteria_hash@)
}

/// The queue last written under `queue_id`.
pub open spec fn queue_in(log: Seq<MatchQueueState>, queue_id: Seq<char>) -> Option<QueueView>
    decreases log.len(),
{
    if log.len() == 0 {
        None
    } else if log.last().queue_id@ == queue_id {
        Some(queue_view(log.last()))
    } else {
        queue_in(log.drop_last(), queue_id)
    }
}

fn copy_players(v: &Vec<Address>) -> (r: Vec<Address>)
    ensures
        r@ == v@,
{
    let mut out: Vec<Address> = Vec::new();
    let mut i: usize = 0;
    while i < v.len()
        invariant
            i <= v@.len(),
            out@ == v@.take(i as int),
        decreases v@.len() - i,
    {
        out.push(v[i]);
        i = i + 1;
        assert(out@ =~= v@.take(i as int));
    }
    assert(v@.take(v@.len() as int) == v@);
    out
}

fn contains_player(v: &Vec<Address>, p: Address) -> (r: bool)
    ensures
        r == v@.contains(p),
{
    let mut i: usize = 0;
    while i < v.len()
        invariant
            i <= v@.len(),
            forall|j: int| 0 <= j < i ==> v@[j] != p,
        decreases v@.len() - i,
    {
        if v[i] == p {
            return true;
        }
        i = i + 1;
    }
    false
}

/// The players of `v` that are not in `gone`, in order.
fn without(v: &Vec<Address>, gone: &Vec<Address>) -> (r: Vec<Address>)
    ensures
        r@ == v@.filter(|p: Address| !gone@.contains(p)),
{
    let mut out: Vec<Address> = Vec::new();
    let mut i: usize = 0;
    while i < v.len()
        invariant
            i <= v@.len(),
            out@ == v@.take(i as int).filter(|p: Address| !gone@.contains(p)),
        decreases v@.len() - i,
    {
        proof {
            let pre = v@.take(i as int);
            assert(v@.take(i + 1) == pre.push(v@[i as int]));
            pre.lemma_filter_push(v@[i as int], |p: Address| !gone@.contains(p));
        }
        if !contains_player(gone, v[i]) {
            out.push(v[i]);
        }
        i = i + 1;
    }
    assert(v@.take(v@.len() as int) == v@);
    out
}

/// The matchmaking contract.
pub struct MatchmakingQueue {
    admin: Option<Address>,
    next_match_id: u64,
    queues: Vec<MatchQueueState>,
    matches: HashMap<u64, MatchRecord>,
}

impl MatchmakingQueue {
    pub closed spec fn admin(&self) -> Option<Address> {
        self.admin
    }

    pub closed spec fn next_match_id(&self) -> u64 {
        self.next_match_id
    }

    pub closed spec fn queue(&self, queue_id: Seq<char>) -> Option<QueueView> {
        queue_in(self.queues@, queue_id)
    }

    /// The matches, by id, as their queue id and players.
    pub closed spec fn matches(&self) -> Map<u64, (Seq<char>, Seq<Address>)> {
        Map::new(
            |id: u64| self.matches@.contains_key(id),
            |id: u64| (self.matches@[id].queue_id@, self.matches@[id].players@),
        )
    }

    /// A match is stored under its own id.
    pub closed spec fn wf(&self) -> bool {
        forall|id: u64| #[trigger] self.matches@.contains_key(id) ==> self.matches@[id].match_id == id
    }

    pub fn new() -> (r: Self)
        ensures
            r.wf(),
            r.admin() is None,
            r.next_match_id() == 0,
            forall|q: Seq<char>| r.queue(q) is None,
            r.matches() == Map::<u64, (Seq<char>, Seq<Address>)>::empty(),
    {
        let r = MatchmakingQueue { admin: None, next_match_id: 0, queues: Vec::new(), matches: HashMap::new() };
        assert(r.matches() =~= Map::<u64, (Seq<char>, Seq<Address>)>::empty());
        r
    }

    pub fn init(&mut self, admin: Address) -> (r: Result<(), Error>)
        requires
            old(self).wf(),
        ensures
            final(self).wf(),
            final(self).next_match_id() == old(self).next_match_id(),
            final(self).matches() == old(self).matches(),
            forall|q: Seq<char>| final(self).queue(q) == old(self).queue(q),
            old(self).admin() is Some ==> r == Err::<(), Error>(Error::AlreadyInitialized)
                && final(self).admin() == old(self).admin(),
            old(self).admin() is None ==> r is Ok && final(self).admin() == Some(admin),
    {
        if self.admin.is_some() {
            return Err(Error::AlreadyInitialized);
        }
        self.admin = Some(admin);
        assert(self.matches() =~= old(self).matches());
        Ok(())
    }

    /// The index of the queue last written under `queue_id`.
    fn find(&self, queue_id: &String) -> (r: Option<usize>)
        ensures
            r is None ==> self.queue(queue_id@) is None,
            r matches Some(i) ==> i < self.queues@.len() && self.queue(queue_id@) == Some(
                queue_view(self.queues@[i as int]),
            ) && self.queues@[i as int].queue_id@ == queue_id@,
    {
        let mut i: usize = self.queues.len();
        assert(self.queues@.take(i as int) == self.queues@);
        while i > 0
            invariant
                i <= self.queues@.len(),
                queue_in(self.queues@, queue_id@) == queue_in(self.queues@.take(i as int), queue_id@),
            decreases i,
        {
            let ghost pre = self.queues@.take(i as int);
            assert(pre.drop_last() == self.queues@.take(i - 1));
            if self.queues[i - 1].queue_id == *queue_id {
                return Some(i - 1);
            }
            i = i - 1;
        }
        None
    }

    fn write(&mut self, q: MatchQueueState)
        ensures
            final(self).admin() == old(self).admin(),
            final(self).next_match_id() == old(self).next_match_id(),
            final(self).matches@ == old(self).matches@,
            final(self).queues@ == old(self).queues@.push(q),
    {
        self.queues.push(q);
    }

    /// Adds `player` to the end of queue `queue_id`, creating the queue with
    /// `criteria_hash` if it does not exist.
    pub fn enqueue_player(&mut self, queue_id: String, player: Address, criteria_hash: String) -> (r:
        Result<(), Error>)
        requires
            old(self).wf(),
        ensures
            final(self).wf(),
            final(self).admin() == old(self).admin(),
            final(self).next_match_id() == old(self).next_match_id(),
            final(self).matches() == old(self).matches(),
            r == match old(self).queue(queue_id@) {
                Some(q) => if q.1.contains(player) {
                    Err(Error::PlayerAlreadyInQueue)
                } else {
                    Ok(())
                },
                None => Ok(()),
            },
            forall|id: Seq<char>| #[trigger]
                final(self).queue(id) == if r is Ok && id == queue_id@ {
                    match old(self).queue(id) {
                        Some(q) => Some((q.0, q.1.push(player), q.2)),
                        None => Some((queue_id@, seq![player], criteria_hash@)),
                    }
                } else {
                    old(self).queue(id)
                },
    {
        let state = match self.find(&queue_id) {
            Some(i) => {
                let q = &self.queues[i];
                if contains_player(&q.players, player) {
                    return Err(Error::PlayerAlreadyInQueue);
                }
                let mut players = copy_players(&q.players);
                players.push(player);
                MatchQueueState {
                    queue_id: q.queue_id.clone(),
                    players,
                    criteria_hash: q.criteria_hash.clone(),
                }
            },
            None => {
                let mut players: Vec<Address> = Vec::new();
                players.push(player);
                assert(players@ =~= seq![player]);
                MatchQueueState { queue_id, players, criteria_hash }
            },
        };
        self.write(state);
        assert(self.queues@.drop_last() == old(self).queues@);
        assert(self.matches() =~= old(self).matches());
        Ok(())
    }

    /// Takes `player` out of queue `queue_id`; the admin or the player may.
    pub fn dequeue_player(&mut self, caller: Address, queue_id: String, player: Address) -> (r: Result<
        (),
        Error,
    >)
        requires
            old(self).wf(),
        ensures
            final(self).wf(),
            final(self).admin() == old(self).admin(),
            final(self).next_match_id() == old(self).next_match_id(),
            final(self).matches() == old(self).matches(),
            r == match old(self).admin() {
                None => Err(Error::NotInitialized),
                Some(a) => if caller != a && caller != player {
                    Err(Error::NotAuthorized)
                } else {
                    match old(self).queue(queue_id@) {
                        None => Err(Error::QueueNotFound),
                        Some(q) => if !q.1.contains(player) {
                            Err(Error::PlayerNotInQueue)
                        } else {
                            Ok(())
                        },
                    }
                },
            },
            forall|id: Seq<char>| #[trigger]
                final(self).queue(id) == if r is Ok && id == queue_id@ {
                    let q = old(self).queue(id).unwrap();
                    Some((q.0, q.1.filter(|p: Address| !seq![player].contains(p)), q.2))
                } else {
                    old(self).queue(id)
                },
    {
        match self.admin {
            None => return Err(Error::NotInitialized),
            Some(a) => {
                if caller != a && caller != player {
                    return Err(Error::NotAuthorized);
                }
            },
        }
        let i = match self.find(&queue_id) {
            None => return Err(Error::QueueNotFound),
            Some(i) => i,
        };
        let q = &self.queues[i];
        if !contains_player(&q.players, player) {
            return Err(Error::PlayerNotInQueue);
        }
        let mut gone: Vec<Address> = Vec::new();
        gone.push(player);
        assert(gone@ =~= seq![player]);
        let players = without(&q.players, &gone);
        let state = MatchQueueState {
            queue_id: q.queue_id.clone(),
            players,
            criteria_hash: q.criteria_hash.clone(),
        };
        self.write(state);
        assert(self.queues@.drop_last() == old(self).queues@);
        assert(self.matches() =~= old(self).matches());
        Ok(())
    }

    /// Records a match of `players` from queue `queue_id`, taking them out of
    /// the queue if it exists; returns the match id.
    pub fn create_match(&mut self, admin: Address, queue_id: String, players: Vec<Address>) -> (r:
        Result<u64, Error>)
        requires
            old(self).wf(),
        ensures
            final(self).wf(),
            final(self).admin() == old(self).admin(),
            r == match old(self).admin() {
                None => Err(Error::NotInitialized),
                Some(a) => if a != admin {
                    Err(Error::NotAuthorized)
                } else if players@.len() == 0 {
                    Err(Error::EmptyPlayers)
                } else if old(self).next_match_id() == u64::MAX {
                    Err(Error::Overflow)
                } else {
                    Ok(old(self).next_match_id())
                },
            },
            r is Ok ==> final(self).next_match_id() == old(self).next_match_id() + 1
                && final(self).matches() == old(self).matches().insert(
                old(self).next_match_id(),
                (queue_id@, players@),
            ),
            r is Err ==> final(self).next_match_id() == old(self).next_match_id()
                && final(self).matches() == old(self).matches(),
            forall|id: Seq<char>| #[trigger]
                final(self).queue(id) == if r is Ok && id == queue_id@ && old(self).queue(
                    id,
                ) is Some {
                    let q = old(self).queue(id).unwrap();
                    Some((q.0, q.1.filter(|p: Address| !players@.contains(p)), q.2))
                } else {
                    old(self).queue(id)
                },
    {
        broadcast use vstd::std_specs::hash::group_hash_axioms;

        match self.admin {
            None => return Err(Error::NotInitialized),
            Some(a) => {
                if a != admin {
                    return Err(Error::NotAuthorized);
                }
            },
        }
        if players.len() == 0 {
            return Err(Error::EmptyPlayers);
        }
        let match_id = self.next_match_id;
        let next = match match_id.checked_add(1) {
            Some(n) => n,
            None => return Err(Error::Overflow),
        };
        match self.find(&queue_id) {
            Some(i) => {
                let q = &self.queues[i];
                let remaining = without(&q.players, &players);
                let state = MatchQueueState {
                    queue_id: q.queue_id.clone(),
                    players: remaining,
                    criteria_hash: q.criteria_hash.clone(),
                };
                self.write(state);
                assert(self.queues@.drop_last() == old(self).queues@);
            },
            None => {},
        }
        self.next_match_id = next;
        self.matches.insert(match_id, MatchRecord { match_id, queue_id, players });
        assert(self.matches() =~= old(self).matches().insert(
            match_id,
            (queue_id@, players@),
        ));
        Ok(match_id)
    }

    /// The queue `queue_id`.
    pub fn queue_state(&self, queue_id: String) -> (r: Result<MatchQueueState, Error>)
        ensures
            r is Ok == self.queue(queue_id@) is Some,
            r matches Ok(q) ==> Some(queue_view(q)) == self.queue(queue_id@),
            r matches Err(e) ==> e == Error::QueueNotFound,
    {
        match self.find(&queue_id) {
            None => Err(Error::QueueNotFound),
            Some(i) => {
                let q = &self.queues[i];
                Ok(
                    MatchQueueState {
                        queue_id: q.queue_id.clone(),
                        players: copy_players(&q.players),
                        criteria_hash: q.criteria_hash.clone(),
                    },
                )
            },
        }
    }

    /// The match `match_id`.
    pub fn match_state(&self, match_id: u64) -> (r: Result<MatchRecord, Error>)
        requires
            self.wf(),
        ensures
            r is Ok == self.matches().contains_key(match_id),
            r matches Ok(m) ==> m.match_id == match_id && (m.queue_id@, m.players@)
                == self.matches()[match_id],
            r matches Err(e) ==> e == Error::MatchNotFound,
    {
        broadcast use vstd::std_specs::hash::group_hash_axioms;

        match self.matches.get(&match_id) {
            None => Err(Error::MatchNotFound),
            Some(m) => Ok(
                MatchRecord {
                    match_id: m.match_id,
                    queue_id: m.queue_id.clone(),
                    players: copy_players(&m.players),
                },
            ),
        }
    }
}

} // verus!
