//! The set of peers that are currently known.

use vstd::prelude::*;
use crate::identifier::{ids_of, PeerIdentifier};

verus! {

/// The peers that discovery has reported and not since reported gone.
/// No identifier is held twice.
///
/// The members stand in a vector that is searched from the front: local
/// discovery reports few peers, and identifiers of any length are told
/// apart byte by byte.
#[derive(Debug)]
pub struct PeerRegistry {
    members: Vec<PeerIdentifier>,
}

impl View for PeerRegistry {
    type V = Set<Seq<u8>>;

    closed spec fn view(&self) -> Set<Seq<u8>> {
        ids_of(self.members@).to_set()
    }
}

impl PeerRegistry {
    #[verifier::type_invariant]
    spec fn distinct(self) -> bool {
        ids_of(self.members@).no_duplicates()
    }

    /// A registry that knows no peer.
    pub fn new() -> (registry: PeerRegistry)
        ensures
            registry@ == Set::<Seq<u8>>::empty(),
    {
        PeerRegistry { members: Vec::new() }
    }

    /// Where `id` stands among the members, if it is one.
    fn position(&self, id: &PeerIdentifier) -> (found: Option<usize>)
        ensures
            (match found {
                Some(i) => i < self.members@.len() && self.members@[i as int]@ == id@,
                None => !self@.contains(id@),
            }),
    {
        let n: usize = self.members.len();
        let mut i: usize = 0;
        while i < n
            invariant
                n == self.members@.len(),
                i <= n,
                forall|j: int| 0 <= j < i ==> self.members@[j]@ != id@,
            decreases n - i,
        {
            if self.members[i].same_as(id) {
                return Some(i);
            }
            i += 1;
        }
        None
    }

    /// Whether `id` is known.
    pub fn contains(&self, id: &PeerIdentifier) -> (known: bool)
        ensures
            known == self@.contains(id@),
    {
        match self.position(id) {
            Some(i) => {
                assert(ids_of(self.members@)[i as int] == id@);
                true
            },
            None => false,
        }
    }

    /// Adds `id` unless it is known already, and says whether it was added.
    pub fn insert(&mut self, id: PeerIdentifier) -> (added: bool)
        ensures
            added == !old(self)@.contains(id@),
            final(self)@ == old(self)@.insert(id@),
    {
        if self.contains(&id) {
            return false;
        }
        proof {
            use_type_invariant(&*self);
        }
        let ghost before = ids_of(self.members@);
        // The vector changes outside the registry, which holds an empty one
        // meanwhile and so never a member twice.
        let mut members: Vec<PeerIdentifier> = Vec::new();
        core::mem::swap(&mut self.members, &mut members);
        members.push(id);
        proof {
            assert(ids_of(members@) =~= before.push(id@));
        }
        self.members = members;
        proof {
            assert(before.push(id@).to_set() =~= before.to_set().insert(id@)) by {
                assert forall|x: Seq<u8>|
                    before.push(id@).contains(x) <==> (x == id@ || before.contains(x)) by {
                    if before.contains(x) {
                        let j = choose|j: int| 0 <= j < before.len() && before[j] == x;
                        assert(before.push(id@)[j] == x);
                    }
                    if x == id@ {
                        assert(before.push(id@)[before.len() as int] == x);
                    }
                }
            }
        }
        true
    }

    /// Takes `id` out if it is known, and says whether it was.
    pub fn remove(&mut self, id: &PeerIdentifier) -> (removed: bool)
        ensures
            removed == old(self)@.contains(id@),
            final(self)@ == old(self)@.remove(id@),
    {
        match self.position(id) {
            None => false,
            Some(i) => {
                proof {
                    use_type_invariant(&*self);
                }
                let ghost before = ids_of(self.members@);
                assert(before[i as int] == id@);
                let mut members: Vec<PeerIdentifier> = Vec::new();
                core::mem::swap(&mut self.members, &mut members);
                let _ = members.remove(i);
                proof {
                    assert(ids_of(members@) =~= before.remove(i as int));
                }
                self.members = members;
                proof {
                    let after = ids_of(self.members@);
                    assert forall|x: Seq<u8>| after.contains(x) <==> (x != id@ && before.contains(
                        x,
                    )) by {
                        if after.contains(x) {
                            let j = choose|j: int| 0 <= j < after.len() && after[j] == x;
                            assert(before[if j < i { j } else { j + 1 }] == x);
                        }
                        if x != id@ && before.contains(x) {
                            let j = choose|j: int| 0 <= j < before.len() && before[j] == x;
                            if j < i {
                                assert(after[j] == x);
                            } else {
                                assert(after[j - 1] == x);
                            }
                        }
                    }
                }
                true
            },
        }
    }

    /// How many peers are known.
    pub fn len(&self) -> (count: usize)
        ensures
            self@.finite(),
            count == self@.len(),
    {
        proof {
            use_type_invariant(self);
            ids_of(self.members@).unique_seq_to_set();
            vstd::seq_lib::seq_to_set_is_finite(ids_of(self.members@));
        }
        self.members.len()
    }
}

} // verus!
