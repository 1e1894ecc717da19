use std::collections::HashSet;

use peer_dial::decision::{decide, Action, DialDecision};
use peer_dial::identifier::PeerIdentifier;

fn ident(bytes: &[u8]) -> PeerIdentifier {
    PeerIdentifier::new(bytes.to_vec())
}

#[test]
fn smaller_byte_precedes() {
    assert!(ident(&[0x05]).precedes(&ident(&[0x09])));
    assert!(!ident(&[0x09]).precedes(&ident(&[0x05])));
    assert!(!ident(&[0x05]).precedes(&ident(&[0x02])));
    assert!(ident(&[0x02]).precedes(&ident(&[0x05])));
}

#[test]
fn identifier_does_not_precede_itself() {
    assert!(!ident(&[0x05]).precedes(&ident(&[0x05])));
    assert!(!ident(&[]).precedes(&ident(&[])));
    assert!(!ident(&[1, 2, 3]).precedes(&ident(&[1, 2, 3])));
}

#[test]
fn first_differing_byte_decides() {
    assert!(ident(&[1, 2, 3]).precedes(&ident(&[1, 3, 0])));
    assert!(!ident(&[1, 3, 0]).precedes(&ident(&[1, 2, 3])));
    assert!(ident(&[0, 255]).precedes(&ident(&[1, 0])));
    assert!(!ident(&[1, 0]).precedes(&ident(&[0, 255])));
    assert!(ident(&[7, 7, 7, 0]).precedes(&ident(&[7, 7, 7, 1])));
}

#[test]
fn proper_prefix_precedes() {
    assert!(ident(&[]).precedes(&ident(&[0])));
    assert!(!ident(&[0]).precedes(&ident(&[])));
    assert!(ident(&[1, 2]).precedes(&ident(&[1, 2, 0])));
    assert!(!ident(&[1, 2, 0]).precedes(&ident(&[1, 2])));
}

#[test]
fn bytes_are_compared_unsigned() {
    assert!(ident(&[0x7f]).precedes(&ident(&[0x80])));
    assert!(ident(&[0x00]).precedes(&ident(&[0xff])));
    assert!(!ident(&[0xff]).precedes(&ident(&[0x00])));
}

#[test]
fn order_is_total_on_samples() {
    let samples = vec![
        ident(&[]),
        ident(&[0]),
        ident(&[0, 0]),
        ident(&[0, 1]),
        ident(&[1]),
        ident(&[1, 0]),
        ident(&[2, 9, 9]),
        ident(&[9]),
        ident(&[255]),
        ident(&[255, 255]),
    ];
    for (i, a) in samples.iter().enumerate() {
        for (j, b) in samples.iter().enumerate() {
            assert_eq!(a.precedes(b), i < j);
            assert_eq!(a.same_as(b), i == j);
            assert_eq!(a == b, i == j);
        }
    }
}

#[test]
fn identifier_keeps_its_bytes() {
    let id = ident(&[0x12, 0x20, 0xaa]);
    assert_eq!(id.as_bytes(), &vec![0x12, 0x20, 0xaa]);
    let copy = id.clone();
    assert_eq!(copy.as_bytes(), &vec![0x12, 0x20, 0xaa]);
    assert_eq!(copy, id);
    assert!(copy.same_as(&id));
    assert!(!ident(&[0x12, 0x20]).same_as(&id));
    assert_ne!(ident(&[0x12, 0x20, 0xab]), id);
}

#[test]
fn node_dials_the_peer_that_comes_after_it() {
    let local = ident(&[0x05]);
    assert_eq!(decide(&local, ident(&[0x09])), DialDecision::Dial(ident(&[0x09])));
    assert_eq!(decide(&local, ident(&[0x02])), DialDecision::Wait(ident(&[0x02])));
}

#[test]
fn node_waits_for_a_peer_with_its_own_identifier() {
    let local = ident(&[0x05]);
    assert_eq!(decide(&local, ident(&[0x05])), DialDecision::Wait(ident(&[0x05])));
}

#[test]
fn only_a_dial_decision_asks_for_a_dial() {
    assert_eq!(
        DialDecision::Dial(ident(&[0x09])).into_action(),
        Action::DialRequest(ident(&[0x09]))
    );
    assert_eq!(DialDecision::Wait(ident(&[0x02])).into_action(), Action::NoAction);
}

#[test]
fn exactly_one_side_of_a_pair_dials() {
    let samples = vec![
        ident(&[]),
        ident(&[0x02]),
        ident(&[0x05]),
        ident(&[0x05, 0x00]),
        ident(&[0x09]),
        ident(&[0x12, 0x20, 0x01]),
        ident(&[0x12, 0x20, 0x02]),
    ];
    for a in samples.iter() {
        for b in samples.iter() {
            if a.same_as(b) {
                continue;
            }
            let a_dials = matches!(decide(a, b.clone()), DialDecision::Dial(_));
            let b_dials = matches!(decide(b, a.clone()), DialDecision::Dial(_));
            assert_ne!(a_dials, b_dials);
            assert_eq!(a_dials, a.precedes(b));
        }
    }
}

#[test]
fn identifiers_can_be_hashed() {
    let mut seen = HashSet::new();
    assert!(seen.insert(ident(&[0x05])));
    assert!(seen.insert(ident(&[0x05, 0x00])));
    assert!(!seen.insert(ident(&[0x05])));
    assert!(seen.contains(&ident(&[0x05, 0x00])));
    assert!(!seen.contains(&ident(&[0x09])));
    assert_eq!(seen.len(), 2);
}
