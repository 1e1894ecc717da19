//! The node's handler for what its collaborators report.

use vstd::prelude::*;
use crate::connections_behaviour::ConnectionsBehaviour;
use crate::decision::Action;
use crate::identifier::{ids_of, PeerIdentifier};
use crate::model::{after, initial, poll_action, poll_state, SchedulerState, Step};

verus! {

/// What the discovery and liveness collaborators report.
#[derive(Debug, PartialEq, Eq)]
pub enum NetworkEvent {
    /// These peers have become reachable.
    Discovered(Vec<PeerIdentifier>),
    /// These peers are no longer reachable.
    Expired(Vec<PeerIdentifier>),
    /// A keepalive round trip with this peer has completed.
    RoundTrip(PeerIdentifier),
}

impl View for NetworkEvent {
    type V = Step;

    open spec fn view(&self) -> Step {
        match self {
            NetworkEvent::Discovered(ids) => Step::Discovered(ids_of(ids@)),
            NetworkEvent::Expired(ids) => Step::Expired(ids_of(ids@)),
            NetworkEvent::RoundTrip(peer) => Step::RoundTrip(peer@),
        }
    }
}

/// The network core of a node: it takes every event of the collaborators
/// and drives the scheduler with it.
#[derive(Debug)]
pub struct CoreNetworkBehaviour {
    connections: ConnectionsBehaviour,
}

impl View for CoreNetworkBehaviour {
    type V = SchedulerState;

    closed spec fn view(&self) -> SchedulerState {
        self.connections@
    }
}

impl CoreNetworkBehaviour {
    /// The core of a node that has seen no event yet.
    pub fn new() -> (core: CoreNetworkBehaviour)
        ensures
            core@ == initial(),
    {
        CoreNetworkBehaviour { connections: ConnectionsBehaviour::new() }
    }

    /// Handles one event. Discovered peers become known and wait for their
    /// dial decision, expired peers are known no longer, and a round trip is
    /// only observed.
    pub fn inject_event(&mut self, event: &NetworkEvent)
        ensures
            final(self)@ == after(old(self)@, event@),
            event is RoundTrip ==> final(self)@ == old(self)@,
    {
        match event {
            NetworkEvent::Discovered(ids) => self.connections.on_discovered(ids),
            NetworkEvent::Expired(ids) => self.connections.on_expired(ids),
            NetworkEvent::RoundTrip(_) => {},
        }
    }

    /// Asks the scheduler for the next dial of the node `local_id`.
    pub fn poll(&mut self, local_id: &PeerIdentifier) -> (action: Action)
        ensures
            final(self)@ == poll_state(old(self)@),
            final(self)@ == after(old(self)@, Step::Poll(local_id@)),
            action@ == poll_action(old(self)@, local_id@),
    {
        self.connections.poll(local_id)
    }

    /// The scheduler that the events drive.
    pub fn connections(&self) -> (scheduler: &ConnectionsBehaviour)
        ensures
            scheduler@ == self@,
    {
        &self.connections
    }
}

} // verus!
