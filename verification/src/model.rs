//! The scheduler as a mathematical state machine: its state, the steps that
//! change it, and what each step does.

use vstd::prelude::*;
use crate::order::precedes;

verus! {

/// What a scheduler holds: the identifiers it knows, and those that wait for
/// a dial decision, oldest first.
pub struct SchedulerState {
    pub known: Set<Seq<u8>>,
    pub pending: Seq<Seq<u8>>,
}

/// One thing that happens to a scheduler.
pub enum Step {
    /// Discovery reports these peers as reachable.
    Discovered(Seq<Seq<u8>>),
    /// Discovery reports these peers as gone.
    Expired(Seq<Seq<u8>>),
    /// A keepalive round trip with this peer has completed.
    RoundTrip(Seq<u8>),
    /// The node with this identifier asks for its next dial.
    Poll(Seq<u8>),
}

/// The state of a scheduler that has seen nothing yet.
pub open spec fn initial() -> SchedulerState {
    SchedulerState { known: Set::empty(), pending: Seq::empty() }
}

/// The report that `id` is reachable: a peer that is not known becomes known
/// and joins the end of the queue; a known peer changes nothing.
pub open spec fn discover(s: SchedulerState, id: Seq<u8>) -> SchedulerState {
    if s.known.contains(id) {
        s
    } else {
        SchedulerState { known: s.known.insert(id), pending: s.pending.push(id) }
    }
}

/// The report that `id` is gone: it is known no longer. The queue stays as
/// it is, so a peer that waits is still evaluated.
pub open spec fn expire(s: SchedulerState, id: Seq<u8>) -> SchedulerState {
    SchedulerState { known: s.known.remove(id), pending: s.pending }
}

/// The reports that `ids` are reachable, taken one by one from the front.
pub open spec fn discover_all(s: SchedulerState, ids: Seq<Seq<u8>>) -> SchedulerState
    decreases ids.len(),
{
    if ids.len() == 0 {
        s
    } else {
        discover(discover_all(s, ids.drop_last()), ids.last())
    }
}

/// The reports that `ids` are gone, taken one by one from the front.
pub open spec fn expire_all(s: SchedulerState, ids: Seq<Seq<u8>>) -> SchedulerState
    decreases ids.len(),
{
    if ids.len() == 0 {
        s
    } else {
        expire(expire_all(s, ids.drop_last()), ids.last())
    }
}

/// After a report that `ids` are reachable, exactly they and the peers known
/// before are known.
pub proof fn lemma_discover_all_known(s: SchedulerState, ids: Seq<Seq<u8>>)
    ensures
        discover_all(s, ids).known == s.known.union(ids.to_set()),
    decreases ids.len(),
{
    if ids.len() > 0 {
        lemma_discover_all_known(s, ids.drop_last());
        assert(ids =~= ids.drop_last().push(ids.last()));
        ids.drop_last().lemma_push_to_set_commute(ids.last());
    }
}

/// After a report that `ids` are gone, exactly the peers known before that
/// are not among them are known, and the queue is as it was.
pub proof fn lemma_expire_all_known(s: SchedulerState, ids: Seq<Seq<u8>>)
    ensures
        expire_all(s, ids).known == s.known.difference(ids.to_set()),
        expire_all(s, ids).pending == s.pending,
    decreases ids.len(),
{
    if ids.len() > 0 {
        lemma_expire_all_known(s, ids.drop_last());
        assert(ids =~= ids.drop_last().push(ids.last()));
        ids.drop_last().lemma_push_to_set_commute(ids.last());
    }
}

/// Whether the node `local` is the side that dials `peer`: the node whose
/// identifier comes first does.
pub open spec fn dials(local: Seq<u8>, peer: Seq<u8>) -> bool {
    precedes(local, peer)
}

/// The peer that one poll evaluates: the one that joined the queue last.
pub open spec fn evaluated(s: SchedulerState) -> Option<Seq<u8>> {
    if s.pending.len() > 0 {
        Some(s.pending.last())
    } else {
        None
    }
}

/// The state after one poll: the peer that joined the queue last has left
/// it; an empty queue changes nothing.
pub open spec fn poll_state(s: SchedulerState) -> SchedulerState {
    if s.pending.len() == 0 {
        s
    } else {
        SchedulerState { known: s.known, pending: s.pending.drop_last() }
    }
}

/// The peer that one poll by the node `local` asks to dial, if any: the peer
/// that joined the queue last, where `local` is the side that dials it.
pub open spec fn poll_action(s: SchedulerState, local: Seq<u8>) -> Option<Seq<u8>> {
    if s.pending.len() > 0 && dials(local, s.pending.last()) {
        Some(s.pending.last())
    } else {
        None
    }
}

/// The state after `step`.
pub open spec fn after(s: SchedulerState, step: Step) -> SchedulerState {
    match step {
        Step::Discovered(ids) => discover_all(s, ids),
        Step::Expired(ids) => expire_all(s, ids),
        Step::RoundTrip(_) => s,
        Step::Poll(_) => poll_state(s),
    }
}

/// The state after `steps`, taken one by one from the front.
pub open spec fn run(s: SchedulerState, steps: Seq<Step>) -> SchedulerState
    decreases steps.len(),
{
    if steps.len() == 0 {
        s
    } else {
        after(run(s, steps.drop_last()), steps.last())
    }
}

} // verus!
