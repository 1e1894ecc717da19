use libp2p::PeerId;
use peer_dial::connections_behaviour::ConnectionsBehaviour;
use peer_dial::decision::Action;
use peer_dial::identifier::PeerIdentifier;

fn samples() -> Vec<PeerId> {
    let mut encoded: Vec<Vec<u8>> = vec![
        vec![0x00, 0x00],
        vec![0x00, 0x01, 0x05],
        vec![0x00, 0x01, 0x09],
        vec![0x00, 0x02, 0x00, 0x00],
        vec![0x00, 0x02, 0x05, 0x00],
        vec![0x00, 0x02, 0xff, 0xff],
        vec![0x00, 0x03, 0x01, 0x00, 0x00],
        vec![0x12, 0x01, 0x00],
        vec![0x12, 0x02, 0x00, 0x00],
    ];
    for first in [0x00u8, 0x01, 0x7f, 0x80, 0xff] {
        let mut sha = vec![0x12, 0x20];
        sha.push(first);
        sha.extend(std::iter::repeat(first.wrapping_mul(3)).take(31));
        encoded.push(sha);
        let mut inline = vec![0x00, 0x24];
        inline.extend(std::iter::repeat(first).take(35));
        inline.push(first.wrapping_add(1));
        encoded.push(inline);
    }
    encoded
        .iter()
        .map(|bytes| PeerId::from_bytes(bytes).expect("a well-formed peer id"))
        .collect()
}

#[test]
fn identifiers_are_ordered_as_the_peer_ids_they_stand_for() {
    let peers = samples();
    for a in peers.iter() {
        for b in peers.iter() {
            let left = PeerIdentifier::new(a.to_bytes());
            let right = PeerIdentifier::new(b.to_bytes());
            assert_eq!(left.precedes(&right), a < b);
            assert_eq!(left.same_as(&right), a == b);
        }
    }
}

#[test]
fn identifier_bytes_give_the_peer_id_back() {
    for peer in samples() {
        let id = PeerIdentifier::new(peer.to_bytes());
        assert_eq!(PeerId::from_bytes(id.as_bytes()).ok(), Some(peer));
    }
}

#[test]
fn scheduler_arbitrates_between_peer_ids() {
    let peers = samples();
    for local in peers.iter() {
        for remote in peers.iter() {
            let mut scheduler = ConnectionsBehaviour::new();
            scheduler.insert_peer(PeerIdentifier::new(remote.to_bytes()));
            let action = scheduler.poll(&PeerIdentifier::new(local.to_bytes()));
            if local < remote {
                assert_eq!(action, Action::DialRequest(PeerIdentifier::new(remote.to_bytes())));
            } else {
                assert_eq!(action, Action::NoAction);
            }
        }
    }
}
