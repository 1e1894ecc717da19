//! Peer identifiers.

use vstd::prelude::*;
use vstd::std_specs::cmp::PartialEqSpecImpl;
use crate::order::{agree_below, precedes, splits_at};

verus! {

/// The identifier of a peer: an immutable byte string. Identifiers are equal
/// when their bytes are, hashed by their bytes, and ordered as [`precedes`]
/// orders their bytes.
///
/// A libp2p peer id is carried as the bytes that its `to_bytes` gives: a
/// multihash of a one-byte code, a one-byte length and the digest, so that
/// the order of the bytes is the order of the peer ids.
#[derive(Debug, Hash)]
pub struct PeerIdentifier {
    bytes: Vec<u8>,
}

impl View for PeerIdentifier {
    type V = Seq<u8>;

    closed spec fn view(&self) -> Seq<u8> {
        self.bytes@
    }
}

impl PeerIdentifier {
    /// The identifier that consists of `bytes`.
    pub fn new(bytes: Vec<u8>) -> (id: PeerIdentifier)
        ensures
            id@ == bytes@,
    {
        PeerIdentifier { bytes }
    }

    /// The bytes of the identifier.
    pub fn as_bytes(&self) -> (bytes: &Vec<u8>)
        ensures
            bytes@ == self@,
    {
        &self.bytes
    }

    /// Whether `self` and `other` name the same peer.
    pub fn same_as(&self, other: &PeerIdentifier) -> (same: bool)
        ensures
            same == (self@ == other@),
    {
        let n: usize = self.bytes.len();
        if n != other.bytes.len() {
            return false;
        }
        let mut i: usize = 0;
        while i < n
            invariant
                n == self@.len(),
                n == other@.len(),
                agree_below(self@, other@, i as int),
            decreases n - i,
        {
            if self.bytes[i] != other.bytes[i] {
                return false;
            }
            i += 1;
        }
        assert(self@ =~= other@);
        true
    }

    /// Whether `self` comes strictly before `other` in the order of
    /// identifiers.
    pub fn precedes(&self, other: &PeerIdentifier) -> (before: bool)
        ensures
            before == precedes(self@, other@),
    {
        let n: usize = self.bytes.len();
        let m: usize = other.bytes.len();
        let mut i: usize = 0;
        while i < n && i < m
            invariant
                n == self@.len(),
                m == other@.len(),
                agree_below(self@, other@, i as int),
            decreases n - i,
        {
            if self.bytes[i] != other.bytes[i] {
                let before: bool = self.bytes[i] < other.bytes[i];
                proof {
                    if before {
                        assert(splits_at(self@, other@, i as int));
                    } else {
                        // The strings part at `i`, where `other` holds the smaller byte.
                        assert forall|k: int| !splits_at(self@, other@, k) by {
                            if k > i {
                                assert(!agree_below(self@, other@, k));
                            }
                        }
                    }
                }
                return before;
            }
            i += 1;
        }
        proof {
            if i < m {
                assert(splits_at(self@, other@, i as int));
            } else {
                // `other` is a prefix of `self`.
                assert forall|k: int| !splits_at(self@, other@, k) by {}
            }
        }
        i < m
    }
}

impl PartialEq for PeerIdentifier {
    fn eq(&self, other: &PeerIdentifier) -> (same: bool) {
        self.same_as(other)
    }
}

impl PartialEqSpecImpl for PeerIdentifier {
    open spec fn obeys_eq_spec() -> bool {
        true
    }

    open spec fn eq_spec(&self, other: &PeerIdentifier) -> bool {
        self@ == other@
    }
}

impl Eq for PeerIdentifier {}

impl Clone for PeerIdentifier {
    fn clone(&self) -> (copy: PeerIdentifier)
        ensures
            copy@ == self@,
    {
        PeerIdentifier { bytes: self.bytes.clone() }
    }
}

/// The identifiers that a sequence of peers names, in the same order.
pub open spec fn ids_of(peers: Seq<PeerIdentifier>) -> Seq<Seq<u8>> {
    peers.map_values(|peer: PeerIdentifier| peer@)
}

} // verus!
