//! The order of peer identifiers: byte strings, compared lexicographically.

use vstd::prelude::*;

verus! {

/// `a` and `b` hold the same byte at every index below `k`.
pub open spec fn agree_below(a: Seq<u8>, b: Seq<u8>, k: int) -> bool {
    &&& 0 <= k <= a.len()
    &&& k <= b.len()
    &&& forall|i: int| 0 <= i < k ==> a[i] == b[i]
}

/// `a` and `b` share their first `k` bytes, and there `a` either ends while
/// `b` goes on, or holds the smaller byte.
pub open spec fn splits_at(a: Seq<u8>, b: Seq<u8>, k: int) -> bool {
    &&& agree_below(a, b, k)
    &&& k < b.len()
    &&& (k == a.len() || a[k] < b[k])
}

/// The strict lexicographic order on byte strings.
pub open spec fn precedes(a: Seq<u8>, b: Seq<u8>) -> bool {
    exists|k: int| splits_at(a, b, k)
}

/// No identifier precedes itself.
pub proof fn lemma_precedes_irreflexive(a: Seq<u8>)
    ensures
        !precedes(a, a),
{
}

/// Of two identifiers at most one precedes the other.
pub proof fn lemma_precedes_asymmetric(a: Seq<u8>, b: Seq<u8>)
    ensures
        !(precedes(a, b) && precedes(b, a)),
{
    if precedes(a, b) && precedes(b, a) {
        let j = choose|k: int| splits_at(a, b, k);
        let k = choose|k: int| splits_at(b, a, k);
        assert(j != k);
    }
}

/// The order is transitive.
pub proof fn lemma_precedes_transitive(a: Seq<u8>, b: Seq<u8>, c: Seq<u8>)
    requires
        precedes(a, b),
        precedes(b, c),
    ensures
        precedes(a, c),
{
    let j = choose|k: int| splits_at(a, b, k);
    let k = choose|k: int| splits_at(b, c, k);
    if j <= k {
        assert(splits_at(a, c, j));
    } else {
        assert(splits_at(a, c, k));
    }
}

/// Two byte strings that share their first `k` bytes are equal or ordered.
proof fn lemma_ordered_from(a: Seq<u8>, b: Seq<u8>, k: int)
    requires
        agree_below(a, b, k),
    ensures
        a == b || precedes(a, b) || precedes(b, a),
    decreases a.len() - k,
{
    if k < a.len() && k < b.len() && a[k] == b[k] {
        lemma_ordered_from(a, b, k + 1);
    } else if k < b.len() && (k == a.len() || a[k] < b[k]) {
        assert(splits_at(a, b, k));
    } else if k < a.len() {
        assert(splits_at(b, a, k));
    } else {
        assert(a =~= b);
    }
}

/// The order is total: of two distinct identifiers exactly one precedes the
/// other.
pub proof fn lemma_precedes_total(a: Seq<u8>, b: Seq<u8>)
    requires
        a != b,
    ensures
        precedes(a, b) != precedes(b, a),
{
    lemma_ordered_from(a, b, 0);
    lemma_precedes_asymmetric(a, b);
}

} // verus!
