//! The peers that wait for a dial decision.

use vstd::prelude::*;
use crate::identifier::{ids_of, PeerIdentifier};

verus! {

/// Peers that have entered the registry and have not been evaluated yet,
/// oldest first. The peer that was pushed last is the first to leave.
#[derive(Debug)]
pub struct PendingDialQueue {
    waiting: Vec<PeerIdentifier>,
}

impl View for PendingDialQueue {
    type V = Seq<Seq<u8>>;

    closed spec fn view(&self) -> Seq<Seq<u8>> {
        ids_of(self.waiting@)
    }
}

impl PendingDialQueue {
    /// A queue in which no peer waits.
    pub fn new() -> (queue: PendingDialQueue)
        ensures
            queue@ == Seq::<Seq<u8>>::empty(),
    {
        PendingDialQueue { waiting: Vec::new() }
    }

    /// Puts `id` behind the peers that wait already.
    pub fn push(&mut self, id: PeerIdentifier)
        ensures
            final(self)@ == old(self)@.push(id@),
    {
        self.waiting.push(id);
    }

    /// Takes out the peer that was pushed last, if any peer waits.
    pub fn pop(&mut self) -> (last: Option<PeerIdentifier>)
        ensures
            (match last {
                Some(id) => old(self)@.len() > 0 && id@ == old(self)@.last() && final(self)@
                    == old(self)@.drop_last(),
                None => old(self)@.len() == 0 && final(self)@ == old(self)@,
            }),
    {
        self.waiting.pop()
    }

    /// How many peers wait.
    pub fn len(&self) -> (count: usize)
        ensures
            count == self@.len(),
    {
        self.waiting.len()
    }

    /// Whether no peer waits.
    pub fn is_empty(&self) -> (empty: bool)
        ensures
            empty == (self@.len() == 0),
    {
        self.waiting.len() == 0
    }
}

} // verus!
