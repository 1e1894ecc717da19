//! The network core behind a lock, for the case that discovery events and
//! polls come from different execution contexts.
//!
//! Events and polls go through one critical section, so the membership test
//! that gates an enqueue and the enqueue itself are never torn apart. What a
//! context does to the core while it holds the lock is stated exactly, over
//! the state that its guard guards. What a call that first has to take the
//! lock finds there depends on what the other contexts did before it, so
//! its contract states only what holds of every such state.

use std::sync::{Arc, Mutex, MutexGuard};
use vstd::prelude::*;
use crate::decision::Action;
use crate::identifier::PeerIdentifier;
use crate::model::{after, dials, poll_action, poll_state, SchedulerState, Step};
use crate::network::{CoreNetworkBehaviour, NetworkEvent};

verus! {

/// `std::sync::Mutex`, declared so that it can stand in a field. Nothing is
/// assumed of what a mutex guards.
#[verifier::external_type_specification]
#[verifier::external_body]
#[verifier::reject_recursive_types(T)]
pub struct ExMutex<T: ?Sized>(Mutex<T>);

/// `std::sync::MutexGuard`, declared so that it can be handed on. Nothing is
/// assumed of what a guard gives access to.
#[verifier::external_type_specification]
#[verifier::external_body]
#[verifier::reject_recursive_types(T)]
pub struct ExMutexGuard<'a, T: ?Sized + 'a>(MutexGuard<'a, T>);

/// The lock that guards the network core was poisoned: a context failed
/// while it held the lock, and what the lock guards may be inconsistent.
#[derive(Clone, Copy, Debug, PartialEq, Eq)]
pub struct SynchronizationFailure;

/// Calls `Mutex::new`: a fresh, unlocked mutex around `core`. Nothing is
/// claimed of the result.
#[verifier::external_body]
fn guarded(core: CoreNetworkBehaviour) -> (lock: Mutex<CoreNetworkBehaviour>) {
    Mutex::new(core)
}

/// Calls `Mutex::lock`, which waits until the lock is free and fails when
/// the mutex is poisoned; the failure becomes `None`. Nothing is claimed of
/// the result. Every function of this module drops its guard before it
/// returns and calls no other while it holds one, so no context asks for a
/// lock that it holds itself.
#[verifier::external_body]
fn acquire<'a>(
    lock: &'a Mutex<CoreNetworkBehaviour>,
) -> (guard: Option<MutexGuard<'a, CoreNetworkBehaviour>>) {
    lock.lock().ok()
}

/// The state of the core that a held lock guards. While a context holds the
/// guard, no other context reaches the core, so the state changes only
/// through the guard.
pub uninterp spec fn guarded_state(guard: MutexGuard<'_, CoreNetworkBehaviour>) -> SchedulerState;

/// Calls `MutexGuard::deref_mut`: access to what the held lock guards. The
/// core that is handed out is the guarded one, and the guard guards it as
/// the caller leaves it. Nothing is claimed of the state that is found
/// there.
#[verifier::external_body]
fn guarded_core<'a, 'b>(
    guard: &'a mut MutexGuard<'b, CoreNetworkBehaviour>,
) -> (core: &'a mut CoreNetworkBehaviour)
    ensures
        core@ == guarded_state(*old(guard)),
        guarded_state(*final(guard)) == final(core)@,
{
    &mut **guard
}

/// Calls `Arc::clone`: another pointer to the same mutex.
#[verifier::external_body]
fn same_lock(lock: &Arc<Mutex<CoreNetworkBehaviour>>) -> (other: Arc<Mutex<CoreNetworkBehaviour>>)
    ensures
        other == *lock,
{
    Arc::clone(lock)
}

/// Hands `event` to the core that the held lock guards: discovered peers
/// become known and wait for their dial decision, expired peers are known
/// no longer, and a round trip is only observed.
pub fn inject_event_guarded(guard: &mut MutexGuard<'_, CoreNetworkBehaviour>, event: &NetworkEvent)
    ensures
        guarded_state(*final(guard)) == after(guarded_state(*old(guard)), event@),
        event is RoundTrip ==> guarded_state(*final(guard)) == guarded_state(*old(guard)),
{
    guarded_core(guard).inject_event(event);
}

/// Polls the core that the held lock guards for the node `local_id`: the
/// peer that joined the queue last, if any peer waits, leaves the queue, and
/// a dial is asked for where the node is the side that dials it.
pub fn poll_guarded(
    guard: &mut MutexGuard<'_, CoreNetworkBehaviour>,
    local_id: &PeerIdentifier,
) -> (action: Action)
    ensures
        guarded_state(*final(guard)) == poll_state(guarded_state(*old(guard))),
        guarded_state(*final(guard)) == after(guarded_state(*old(guard)), Step::Poll(local_id@)),
        action@ == poll_action(guarded_state(*old(guard)), local_id@),
{
    guarded_core(guard).poll(local_id)
}

/// Hands `event` to the core behind a lock, given what the attempt to take
/// the lock gave: the guard of the held lock, or nothing where the lock is
/// poisoned. With the guard the core handles the event as
/// [`inject_event_guarded`] says, and the guard stays with the caller;
/// without it the event is dropped.
pub fn inject_event_held(
    held: &mut Option<MutexGuard<'_, CoreNetworkBehaviour>>,
    event: &NetworkEvent,
) -> (outcome: Result<(), SynchronizationFailure>)
    ensures
        outcome is Err <==> *old(held) is None,
        *old(held) is None ==> *final(held) is None,
        *old(held) matches Some(before) ==> (*final(held) matches Some(now) && guarded_state(now)
            == after(guarded_state(before), event@)),
{
    match held {
        None => Err(SynchronizationFailure),
        Some(guard) => {
            inject_event_guarded(guard, event);
            Ok(())
        },
    }
}

/// Polls the core behind a lock for the node `local_id`, given what the
/// attempt to take the lock gave. With the guard the core is polled once, as
/// [`poll_guarded`] says, and the guard stays with the caller; without it no
/// peer is evaluated.
pub fn poll_held(
    held: &mut Option<MutexGuard<'_, CoreNetworkBehaviour>>,
    local_id: &PeerIdentifier,
) -> (outcome: Result<Action, SynchronizationFailure>)
    ensures
        outcome is Err <==> *old(held) is None,
        *old(held) is None ==> *final(held) is None,
        *old(held) matches Some(before) ==> (outcome matches Ok(action) && action@ == poll_action(
            guarded_state(before),
            local_id@,
        )),
        *old(held) matches Some(before) ==> (*final(held) matches Some(now) && guarded_state(now)
            == poll_state(guarded_state(before))),
        outcome matches Ok(Action::DialRequest(peer)) ==> dials(local_id@, peer@),
{
    match held {
        None => Err(SynchronizationFailure),
        Some(guard) => Ok(poll_guarded(guard, local_id)),
    }
}

/// A handle to a network core that execution contexts share. Each context
/// holds a clone of the handle; all clones reach the same core.
pub struct SharedNetworkBehaviour {
    core: Arc<Mutex<CoreNetworkBehaviour>>,
}

impl SharedNetworkBehaviour {
    /// A handle to a new core that has seen no event yet.
    pub fn new() -> (shared: SharedNetworkBehaviour) {
        SharedNetworkBehaviour { core: Arc::new(guarded(CoreNetworkBehaviour::new())) }
    }

    /// Takes the lock, hands `event` to the core as [`inject_event_held`]
    /// says, and releases the lock. It fails, and the event is dropped,
    /// where the lock is poisoned.
    pub fn inject_event(
        &self,
        event: &NetworkEvent,
    ) -> (outcome: Result<(), SynchronizationFailure>) {
        let mut held = acquire(&self.core);
        inject_event_held(&mut held, event)
    }

    /// Takes the lock, polls the core for the node `local_id` as
    /// [`poll_held`] says, and releases the lock. It fails, and no peer is
    /// evaluated, where the lock is poisoned.
    pub fn poll(
        &self,
        local_id: &PeerIdentifier,
    ) -> (outcome: Result<Action, SynchronizationFailure>)
        ensures
            outcome matches Ok(Action::DialRequest(peer)) ==> dials(local_id@, peer@),
    {
        let mut held = acquire(&self.core);
        poll_held(&mut held, local_id)
    }
}

impl Clone for SharedNetworkBehaviour {
    /// Another handle to the same core.
    fn clone(&self) -> (other: SharedNetworkBehaviour)
        ensures
            other == *self,
    {
        SharedNetworkBehaviour { core: same_lock(&self.core) }
    }
}

/// What the driver is to do after a poll of a shared core: a poll that could
/// not take the lock counts as one that found nothing to do.
pub fn no_action_on_failure(outcome: Result<Action, SynchronizationFailure>) -> (action: Action)
    ensures
        action == (match outcome {
            Ok(found) => found,
            Err(_) => Action::NoAction,
        }),
{
    match outcome {
        Ok(found) => found,
        Err(_) => Action::NoAction,
    }
}

} // verus!
