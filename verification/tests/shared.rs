use std::sync::Mutex;

use peer_dial::decision::Action;
use peer_dial::identifier::PeerIdentifier;
use peer_dial::network::{CoreNetworkBehaviour, NetworkEvent};
use peer_dial::shared::{
    inject_event_guarded, inject_event_held, no_action_on_failure, poll_guarded, poll_held,
    SharedNetworkBehaviour, SynchronizationFailure,
};

fn remote(byte: u8) -> PeerIdentifier {
    PeerIdentifier::new(vec![byte])
}

#[test]
fn shared_core_runs_the_scheduler() {
    let local = remote(0x05);
    let shared = SharedNetworkBehaviour::new();
    assert_eq!(shared.inject_event(&NetworkEvent::Discovered(vec![remote(0x09)])), Ok(()));
    assert_eq!(shared.inject_event(&NetworkEvent::Discovered(vec![remote(0x02)])), Ok(()));

    assert_eq!(shared.poll(&local), Ok(Action::NoAction));
    assert_eq!(shared.poll(&local), Ok(Action::DialRequest(remote(0x09))));
    assert_eq!(shared.poll(&local), Ok(Action::NoAction));
}

#[test]
fn clones_of_a_handle_reach_the_same_core() {
    let local = remote(0x05);
    let discovery = SharedNetworkBehaviour::new();
    let polling = discovery.clone();

    assert_eq!(polling.poll(&local), Ok(Action::NoAction));
    assert_eq!(discovery.inject_event(&NetworkEvent::Discovered(vec![remote(0x09)])), Ok(()));
    assert_eq!(discovery.inject_event(&NetworkEvent::Discovered(vec![remote(0x09)])), Ok(()));
    assert_eq!(polling.poll(&local), Ok(Action::DialRequest(remote(0x09))));
    assert_eq!(polling.poll(&local), Ok(Action::NoAction));

    assert_eq!(discovery.inject_event(&NetworkEvent::Expired(vec![remote(0x09)])), Ok(()));
    assert_eq!(polling.clone().inject_event(&NetworkEvent::Discovered(vec![remote(0x09)])), Ok(()));
    assert_eq!(discovery.poll(&local), Ok(Action::DialRequest(remote(0x09))));
    assert_eq!(polling.poll(&local), Ok(Action::NoAction));
}

#[test]
fn separate_cores_do_not_share_their_peers() {
    let local = remote(0x05);
    let first = SharedNetworkBehaviour::new();
    let second = SharedNetworkBehaviour::new();
    assert_eq!(first.inject_event(&NetworkEvent::Discovered(vec![remote(0x09)])), Ok(()));
    assert_eq!(second.poll(&local), Ok(Action::NoAction));
    assert_eq!(first.poll(&local), Ok(Action::DialRequest(remote(0x09))));
}

#[test]
fn lock_is_free_again_after_every_call() {
    let local = remote(0x00);
    let shared = SharedNetworkBehaviour::new();
    for byte in 1..=20u8 {
        assert_eq!(shared.inject_event(&NetworkEvent::Discovered(vec![remote(byte)])), Ok(()));
        assert_eq!(shared.inject_event(&NetworkEvent::RoundTrip(remote(byte))), Ok(()));
    }
    for byte in (1..=20u8).rev() {
        assert_eq!(shared.poll(&local), Ok(Action::DialRequest(remote(byte))));
    }
    assert_eq!(shared.poll(&local), Ok(Action::NoAction));
}

fn crosses_contexts<T: Send + Sync + 'static>(_: &T) {}

#[test]
fn handle_can_be_given_to_another_context() {
    let shared = SharedNetworkBehaviour::new();
    crosses_contexts(&shared);
    crosses_contexts(&shared.clone());
}

#[test]
fn failed_poll_counts_as_no_action() {
    assert_eq!(no_action_on_failure(Err(SynchronizationFailure)), Action::NoAction);
    assert_eq!(no_action_on_failure(Ok(Action::NoAction)), Action::NoAction);
    assert_eq!(
        no_action_on_failure(Ok(Action::DialRequest(remote(0x09)))),
        Action::DialRequest(remote(0x09))
    );
}

#[test]
fn event_is_dropped_where_the_lock_is_not_held() {
    let event = NetworkEvent::Discovered(vec![remote(0x09)]);
    assert_eq!(inject_event_held(&mut None, &event), Err(SynchronizationFailure));
}

#[test]
fn no_peer_is_evaluated_where_the_lock_is_not_held() {
    let outcome = poll_held(&mut None, &remote(0x05));
    assert_eq!(outcome, Err(SynchronizationFailure));
    assert_eq!(no_action_on_failure(outcome), Action::NoAction);
}

#[test]
fn held_lock_gives_the_core_to_events_and_polls() {
    let local = remote(0x05);
    let lock = Mutex::new(CoreNetworkBehaviour::new());
    let report = NetworkEvent::Discovered(vec![remote(0x02), remote(0x09)]);
    assert_eq!(inject_event_held(&mut lock.lock().ok(), &report), Ok(()));
    assert_eq!(lock.lock().unwrap().connections().pending_len(), 2);

    assert_eq!(poll_held(&mut lock.lock().ok(), &local), Ok(Action::DialRequest(remote(0x09))));
    assert_eq!(poll_held(&mut lock.lock().ok(), &local), Ok(Action::NoAction));
    assert_eq!(poll_held(&mut lock.lock().ok(), &local), Ok(Action::NoAction));
    assert_eq!(lock.lock().unwrap().connections().pending_len(), 0);
    assert_eq!(lock.lock().unwrap().connections().known_len(), 2);
}

#[test]
fn guard_gives_the_core_to_events_and_polls() {
    let local = remote(0x05);
    let lock = Mutex::new(CoreNetworkBehaviour::new());
    let mut guard = lock.lock().unwrap();
    inject_event_guarded(&mut guard, &NetworkEvent::Discovered(vec![remote(0x09)]));
    inject_event_guarded(&mut guard, &NetworkEvent::Discovered(vec![remote(0x02)]));
    inject_event_guarded(&mut guard, &NetworkEvent::Discovered(vec![remote(0x09)]));
    assert_eq!(guard.connections().pending_len(), 2);
    inject_event_guarded(&mut guard, &NetworkEvent::Expired(vec![remote(0x02)]));
    inject_event_guarded(&mut guard, &NetworkEvent::RoundTrip(remote(0x09)));
    assert_eq!(guard.connections().pending_len(), 2);
    assert_eq!(guard.connections().known_len(), 1);

    assert_eq!(poll_guarded(&mut guard, &local), Action::NoAction);
    assert_eq!(guard.connections().pending_len(), 1);
    assert_eq!(poll_guarded(&mut guard, &local), Action::DialRequest(remote(0x09)));
    assert_eq!(poll_guarded(&mut guard, &local), Action::NoAction);
    assert_eq!(guard.connections().pending_len(), 0);
    assert!(guard.connections().knows(&remote(0x09)));
}

#[test]
fn held_lock_with_a_peer_to_dial_asks_for_the_dial() {
    let lock = Mutex::new(CoreNetworkBehaviour::new());
    let report = NetworkEvent::Discovered(vec![remote(0x09)]);
    assert_eq!(inject_event_held(&mut lock.lock().ok(), &report), Ok(()));
    assert!(lock.lock().unwrap().connections().knows(&remote(0x09)));
    assert_eq!(
        poll_held(&mut lock.lock().ok(), &remote(0x05)),
        Ok(Action::DialRequest(remote(0x09)))
    );
}

#[test]
fn held_lock_stays_with_the_caller_between_calls() {
    let local = remote(0x05);
    let lock = Mutex::new(CoreNetworkBehaviour::new());
    let mut held = lock.lock().ok();
    let report = NetworkEvent::Discovered(vec![remote(0x09), remote(0x07)]);
    assert_eq!(inject_event_held(&mut held, &report), Ok(()));
    assert!(held.is_some());
    assert_eq!(held.as_ref().unwrap().connections().pending_len(), 2);

    assert_eq!(poll_held(&mut held, &local), Ok(Action::DialRequest(remote(0x07))));
    assert_eq!(held.as_ref().unwrap().connections().pending_len(), 1);
    assert_eq!(poll_held(&mut held, &local), Ok(Action::DialRequest(remote(0x09))));
    assert_eq!(held.as_ref().unwrap().connections().pending_len(), 0);
    assert_eq!(poll_held(&mut held, &local), Ok(Action::NoAction));
    assert!(held.is_some());
}

#[test]
fn failed_attempt_stays_failed() {
    let mut held = None;
    let report = NetworkEvent::Discovered(vec![remote(0x09)]);
    assert_eq!(inject_event_held(&mut held, &report), Err(SynchronizationFailure));
    assert!(held.is_none());
    assert_eq!(poll_held(&mut held, &remote(0x05)), Err(SynchronizationFailure));
    assert!(held.is_none());
}
