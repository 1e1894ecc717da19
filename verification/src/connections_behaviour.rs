//! The scheduler that turns discovery reports into dial requests.

use vstd::prelude::*;
use crate::decision::{decide, Action};
use crate::identifier::{ids_of, PeerIdentifier};
use crate::model::{
    discover, discover_all, expire_all, initial, lemma_discover_all_known,
    lemma_expire_all_known, poll_action, poll_state, SchedulerState,
};
use crate::queue::PendingDialQueue;
use crate::registry::PeerRegistry;

verus! {

/// Establishes connections with newly discovered peers: it keeps the
/// registry of known peers and the queue of peers that wait for a dial
/// decision, and hands out at most one dial request per poll.
#[derive(Debug)]
pub struct ConnectionsBehaviour {
    new_peers: PendingDialQueue,
    peers: PeerRegistry,
}

impl View for ConnectionsBehaviour {
    type V = SchedulerState;

    closed spec fn view(&self) -> SchedulerState {
        SchedulerState { known: self.peers@, pending: self.new_peers@ }
    }
}

impl ConnectionsBehaviour {
    /// A scheduler that knows no peer and has none waiting.
    pub fn new() -> (scheduler: ConnectionsBehaviour)
        ensures
            scheduler@ == initial(),
    {
        ConnectionsBehaviour { new_peers: PendingDialQueue::new(), peers: PeerRegistry::new() }
    }

    /// Takes note of a discovered peer. A peer that is not known becomes
    /// known and waits for its dial decision; a report of a peer that is
    /// known already changes nothing.
    pub fn insert_peer(&mut self, peer: PeerIdentifier)
        ensures
            final(self)@ == discover(old(self)@, peer@),
            old(self)@.known.contains(peer@) ==> final(self)@ == old(self)@,
    {
        let waiting = peer.clone();
        if self.peers.insert(peer) {
            self.new_peers.push(waiting);
        } else {
            assert(self@.known =~= old(self)@.known);
        }
    }

    /// Takes note of the peers that discovery reports as reachable, in the
    /// order of the report.
    pub fn on_discovered(&mut self, ids: &Vec<PeerIdentifier>)
        ensures
            final(self)@ == discover_all(old(self)@, ids_of(ids@)),
            final(self)@.known == old(self)@.known.union(ids_of(ids@).to_set()),
    {
        let ghost reported = ids_of(ids@);
        let n: usize = ids.len();
        let mut i: usize = 0;
        while i < n
            invariant
                n == ids@.len(),
                i <= n,
                reported == ids_of(ids@),
                self@ == discover_all(old(self)@, reported.take(i as int)),
            decreases n - i,
        {
            proof {
                assert(reported.take(i + 1).drop_last() =~= reported.take(i as int));
            }
            self.insert_peer(ids[i].clone());
            i += 1;
        }
        proof {
            assert(reported.take(n as int) =~= reported);
            lemma_discover_all_known(old(self)@, reported);
        }
    }

    /// Takes note of the peers that discovery reports as gone. They are
    /// known no longer; one that still waits is evaluated all the same.
    pub fn on_expired(&mut self, ids: &Vec<PeerIdentifier>)
        ensures
            final(self)@ == expire_all(old(self)@, ids_of(ids@)),
            final(self)@.known == old(self)@.known.difference(ids_of(ids@).to_set()),
            final(self)@.pending == old(self)@.pending,
    {
        let ghost reported = ids_of(ids@);
        let n: usize = ids.len();
        let mut i: usize = 0;
        while i < n
            invariant
                n == ids@.len(),
                i <= n,
                reported == ids_of(ids@),
                self@ == expire_all(old(self)@, reported.take(i as int)),
            decreases n - i,
        {
            proof {
                assert(reported.take(i + 1).drop_last() =~= reported.take(i as int));
            }
            self.peers.remove(&ids[i]);
            i += 1;
        }
        proof {
            assert(reported.take(n as int) =~= reported);
            lemma_expire_all_known(old(self)@, reported);
        }
    }

    /// Evaluates the peer that joined the queue last, if any peer waits, for
    /// the node `local_id`, and asks for a dial where that node is the side
    /// that dials. The peer leaves the queue either way, and no other peer
    /// is touched.
    pub fn poll(&mut self, local_id: &PeerIdentifier) -> (action: Action)
        ensures
            final(self)@ == poll_state(old(self)@),
            action@ == poll_action(old(self)@, local_id@),
            final(self)@.known == old(self)@.known,
            old(self)@.pending.len() > 0 ==> final(self)@.pending == old(self)@.pending.drop_last(),
            old(self)@.pending.len() == 0 ==> final(self)@ == old(self)@ && action is NoAction,
    {
        match self.new_peers.pop() {
            None => Action::NoAction,
            Some(peer) => decide(local_id, peer).into_action(),
        }
    }

    /// Whether `id` is known.
    pub fn knows(&self, id: &PeerIdentifier) -> (known: bool)
        ensures
            known == self@.known.contains(id@),
    {
        self.peers.contains(id)
    }

    /// How many peers are known.
    pub fn known_len(&self) -> (count: usize)
        ensures
            self@.known.finite(),
            count == self@.known.len(),
    {
        self.peers.len()
    }

    /// How many peers wait for a dial decision.
    pub fn pending_len(&self) -> (count: usize)
        ensures
            count == self@.pending.len(),
    {
        self.new_peers.len()
    }
}

} // verus!
