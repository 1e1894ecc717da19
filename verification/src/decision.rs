//! Which side of a pair of peers dials.

use vstd::prelude::*;
use crate::identifier::PeerIdentifier;
use crate::model::dials;

verus! {

/// The outcome of evaluating one queued peer against the local identifier.
#[derive(Debug, PartialEq, Eq)]
pub enum DialDecision {
    /// The local node dials the peer.
    Dial(PeerIdentifier),
    /// The local node leaves it to the peer to dial.
    Wait(PeerIdentifier),
}

/// What a poll hands to the driver.
#[derive(Debug, PartialEq, Eq)]
pub enum Action {
    /// Nothing is to be done now.
    NoAction,
    /// Dial this peer, unless a connection to it exists already.
    DialRequest(PeerIdentifier),
}

impl DialDecision {
    /// The peer that was evaluated.
    pub open spec fn peer(self) -> Seq<u8> {
        match self {
            DialDecision::Dial(peer) => peer@,
            DialDecision::Wait(peer) => peer@,
        }
    }

    /// What the driver is asked to do about the decision.
    pub fn into_action(self) -> (action: Action)
        ensures
            action@ == (if self is Dial {
                Some(self.peer())
            } else {
                None
            }),
    {
        match self {
            DialDecision::Dial(peer) => Action::DialRequest(peer),
            DialDecision::Wait(_) => Action::NoAction,
        }
    }
}

impl View for Action {
    type V = Option<Seq<u8>>;

    /// The peer that is to be dialled, if any.
    open spec fn view(&self) -> Option<Seq<u8>> {
        match self {
            Action::NoAction => None,
            Action::DialRequest(peer) => Some(peer@),
        }
    }
}

/// Evaluates `peer` for the node `local`: the node dials exactly when its own
/// identifier comes before the peer's.
pub fn decide(local: &PeerIdentifier, peer: PeerIdentifier) -> (decision: DialDecision)
    ensures
        decision.peer() == peer@,
        decision is Dial <==> dials(local@, peer@),
{
    if local.precedes(&peer) {
        DialDecision::Dial(peer)
    } else {
        DialDecision::Wait(peer)
    }
}

} // verus!
