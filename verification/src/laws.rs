//! What holds of every scheduler, whatever the events and polls it sees.

use vstd::prelude::*;
use crate::model::{
    dials, discover, discover_all, evaluated, initial, lemma_discover_all_known,
    lemma_expire_all_known, poll_action, poll_state, run, SchedulerState, Step,
};
use crate::order::{lemma_precedes_total, precedes};

verus! {

/// `step` reports `id` as reachable.
pub open spec fn discovers(step: Step, id: Seq<u8>) -> bool {
    step matches Step::Discovered(ids) && ids.contains(id)
}

/// `step` reports `id` as gone.
pub open spec fn expires(step: Step, id: Seq<u8>) -> bool {
    step matches Step::Expired(ids) && ids.contains(id)
}

/// None of `steps` from index `from` on reports `id` as gone.
pub open spec fn not_expired_from(steps: Seq<Step>, from: int, id: Seq<u8>) -> bool {
    forall|j: int| from <= j < steps.len() ==> !expires(#[trigger] steps[j], id)
}

/// One of `steps` reports `id` as reachable, and none after it reports `id`
/// as gone.
pub open spec fn discovered_and_not_since_expired(steps: Seq<Step>, id: Seq<u8>) -> bool {
    exists|i: int|
        0 <= i < steps.len() && discovers(#[trigger] steps[i], id) && not_expired_from(
            steps,
            i + 1,
            id,
        )
}

/// How often `id` stands in `queue`.
pub open spec fn occurrences(queue: Seq<Seq<u8>>, id: Seq<u8>) -> nat
    decreases queue.len(),
{
    if queue.len() == 0 {
        0
    } else {
        occurrences(queue.drop_last(), id) + if queue.last() == id {
            1nat
        } else {
            0nat
        }
    }
}

/// How often `id` can still be evaluated unless it is reported gone: once
/// for each time it waits, and once more if it is not known, since only
/// then a report that it is reachable lets it join the queue.
pub open spec fn evaluations_in_store(s: SchedulerState, id: Seq<u8>) -> nat {
    occurrences(s.pending, id) + if s.known.contains(id) {
        0nat
    } else {
        1nat
    }
}

/// How many of `steps` report `id` as gone.
pub open spec fn expiries(steps: Seq<Step>, id: Seq<u8>) -> nat
    decreases steps.len(),
{
    if steps.len() == 0 {
        0
    } else {
        expiries(steps.drop_last(), id) + if expires(steps.last(), id) {
            1nat
        } else {
            0nat
        }
    }
}

/// How many of `steps`, taken from the state `s`, are polls that evaluate
/// `id`.
pub open spec fn evaluations(s: SchedulerState, steps: Seq<Step>, id: Seq<u8>) -> nat
    decreases steps.len(),
{
    if steps.len() == 0 {
        0
    } else {
        evaluations(s, steps.drop_last(), id) + if steps.last() is Poll && evaluated(
            run(s, steps.drop_last()),
        ) == Some(id) {
            1nat
        } else {
            0nat
        }
    }
}

proof fn lemma_contains_last_or_before(queue: Seq<Seq<u8>>, id: Seq<u8>)
    requires
        queue.len() > 0,
    ensures
        queue.contains(id) <==> queue.drop_last().contains(id) || queue.last() == id,
{
    let front = queue.drop_last();
    if front.contains(id) {
        let j = choose|j: int| 0 <= j < front.len() && front[j] == id;
        assert(queue[j] == id);
    }
    if queue.contains(id) {
        let j = choose|j: int| 0 <= j < queue.len() && queue[j] == id;
        if j < queue.len() - 1 {
            assert(front[j] == id);
        }
    }
}

proof fn lemma_occurrences_none(queue: Seq<Seq<u8>>, id: Seq<u8>)
    ensures
        occurrences(queue, id) == 0 <==> !queue.contains(id),
    decreases queue.len(),
{
    if queue.len() > 0 {
        lemma_occurrences_none(queue.drop_last(), id);
        lemma_contains_last_or_before(queue, id);
    }
}

proof fn lemma_discover_all_in_store(s: SchedulerState, ids: Seq<Seq<u8>>, id: Seq<u8>)
    ensures
        evaluations_in_store(discover_all(s, ids), id) == evaluations_in_store(s, id),
    decreases ids.len(),
{
    if ids.len() > 0 {
        let before = discover_all(s, ids.drop_last());
        lemma_discover_all_in_store(s, ids.drop_last(), id);
        if !before.known.contains(ids.last()) {
            assert(before.pending.push(ids.last()).drop_last() =~= before.pending);
        }
    }
}

/// After any steps, a scheduler knows exactly the identifiers that were
/// reported reachable and not reported gone since, together with those it
/// knew at the start that were never reported gone.
pub proof fn lemma_membership(s: SchedulerState, steps: Seq<Step>, id: Seq<u8>)
    ensures
        run(s, steps).known.contains(id) <==> discovered_and_not_since_expired(steps, id) || (
        s.known.contains(id) && not_expired_from(steps, 0, id)),
    decreases steps.len(),
{
    if steps.len() > 0 {
        let front = steps.drop_last();
        let last = steps.last();
        let n = front.len() as int;
        lemma_membership(s, front, id);
        assert forall|j: int| 0 <= j < n implies front[j] == steps[j] by {}
        match last {
            Step::Discovered(ids) => {
                lemma_discover_all_known(run(s, front), ids);
            },
            Step::Expired(ids) => {
                lemma_expire_all_known(run(s, front), ids);
            },
            _ => {},
        }
        if discovers(last, id) {
            // The last step is the report after which nothing reports `id` as gone.
            assert(not_expired_from(steps, n + 1, id));
        } else if expires(last, id) {
            // Whatever reported `id` before, the last step reports it as gone.
            assert(!not_expired_from(steps, 0, id));
            assert forall|i: int| 0 <= i < steps.len() && discovers(#[trigger] steps[i], id)
                implies !not_expired_from(steps, i + 1, id) by {
                assert(expires(steps[n], id));
            }
        } else {
            // The last step says nothing of `id`: both sides are as before it.
            assert forall|i: int| 0 <= i <= n implies (not_expired_from(front, i, id)
                <==> not_expired_from(steps, i, id)) by {
                if not_expired_from(front, i, id) {
                    assert forall|j: int| i <= j < steps.len() implies !expires(
                        #[trigger] steps[j],
                        id,
                    ) by {
                        if j < n {
                            assert(!expires(front[j], id));
                        }
                    }
                }
                if not_expired_from(steps, i, id) {
                    assert forall|j: int| i <= j < front.len() implies !expires(
                        #[trigger] front[j],
                        id,
                    ) by {
                        assert(!expires(steps[j], id));
                    }
                }
            }
            if discovered_and_not_since_expired(front, id) {
                let i = choose|i: int|
                    0 <= i < front.len() && discovers(#[trigger] front[i], id)
                        && not_expired_from(front, i + 1, id);
                assert(discovers(steps[i], id) && not_expired_from(steps, i + 1, id));
            }
            if discovered_and_not_since_expired(steps, id) {
                let i = choose|i: int|
                    0 <= i < steps.len() && discovers(#[trigger] steps[i], id)
                        && not_expired_from(steps, i + 1, id);
                assert(discovers(front[i], id) && not_expired_from(front, i + 1, id));
            }
        }
    }
}

/// After any steps, a scheduler that started out empty knows exactly the
/// identifiers that were reported reachable and not reported gone since.
pub proof fn lemma_membership_from_start(steps: Seq<Step>, id: Seq<u8>)
    ensures
        run(initial(), steps).known.contains(id) <==> discovered_and_not_since_expired(steps, id),
{
    lemma_membership(initial(), steps, id);
}

/// A report that a known peer is reachable changes nothing, so reporting a
/// peer twice in a row does what reporting it once does: it waits once.
pub proof fn lemma_discover_twice(s: SchedulerState, id: Seq<u8>)
    ensures
        s.known.contains(id) ==> discover(s, id) == s,
        discover(discover(s, id), id) == discover(s, id),
{
}

/// Over any steps that do not report `id` as gone, the number of times it
/// waits cannot grow, but for the one time that a peer which is not yet
/// known joins the queue. A known peer stays known.
pub proof fn lemma_no_duplicate_enqueue(s: SchedulerState, steps: Seq<Step>, id: Seq<u8>)
    requires
        not_expired_from(steps, 0, id),
    ensures
        evaluations_in_store(run(s, steps), id) <= evaluations_in_store(s, id),
        s.known.contains(id) ==> run(s, steps).known.contains(id),
    decreases steps.len(),
{
    if steps.len() > 0 {
        let front = steps.drop_last();
        let last = steps.last();
        assert(not_expired_from(front, 0, id)) by {
            assert forall|j: int| 0 <= j < front.len() implies front[j] == steps[j] by {}
        }
        lemma_no_duplicate_enqueue(s, front, id);
        let before = run(s, front);
        match last {
            Step::Discovered(ids) => {
                lemma_discover_all_known(before, ids);
                lemma_discover_all_in_store(before, ids, id);
            },
            Step::Expired(ids) => {
                lemma_expire_all_known(before, ids);
            },
            _ => {},
        }
    }
}

/// Over any steps, the polls that evaluate `id` and the evaluations still
/// in store afterwards are together no more than the evaluations in store
/// at the start and the reports that `id` is gone. So a peer that has been
/// evaluated is evaluated again only after it was reported gone and then
/// reachable anew.
pub proof fn lemma_evaluations_accounted(s: SchedulerState, steps: Seq<Step>, id: Seq<u8>)
    ensures
        evaluations(s, steps, id) + evaluations_in_store(run(s, steps), id)
            <= evaluations_in_store(s, id) + expiries(steps, id),
    decreases steps.len(),
{
    if steps.len() > 0 {
        let before = run(s, steps.drop_last());
        lemma_evaluations_accounted(s, steps.drop_last(), id);
        match steps.last() {
            Step::Discovered(ids) => {
                lemma_discover_all_in_store(before, ids, id);
            },
            Step::Expired(ids) => {
                lemma_expire_all_known(before, ids);
            },
            _ => {},
        }
    }
}

/// A scheduler that started out empty evaluates a peer at most once more
/// often than the peer was reported gone.
pub proof fn lemma_evaluations_from_start(steps: Seq<Step>, id: Seq<u8>)
    ensures
        evaluations(initial(), steps, id) <= 1 + expiries(steps, id),
{
    lemma_evaluations_accounted(initial(), steps, id);
}

/// Of two distinct nodes exactly one is the side that dials: the one whose
/// identifier comes first.
pub proof fn lemma_tie_break(a: Seq<u8>, b: Seq<u8>)
    requires
        a != b,
    ensures
        dials(a, b) != dials(b, a),
        precedes(a, b) ==> dials(a, b) && !dials(b, a),
{
    lemma_precedes_total(a, b);
}

/// When node `a` evaluates `b` and node `b` evaluates `a`, exactly one of
/// the two polls asks for a dial: that of the node whose identifier comes
/// first. So the two never dial each other.
pub proof fn lemma_exactly_one_side_dials(
    a: Seq<u8>,
    b: Seq<u8>,
    at_a: SchedulerState,
    at_b: SchedulerState,
)
    requires
        a != b,
        evaluated(at_a) == Some(b),
        evaluated(at_b) == Some(a),
    ensures
        (poll_action(at_a, a) == Some(b)) != (poll_action(at_b, b) == Some(a)),
        poll_action(at_a, a) is None || poll_action(at_b, b) is None,
        precedes(a, b) ==> poll_action(at_a, a) == Some(b) && poll_action(at_b, b) is None,
{
    lemma_precedes_total(a, b);
}

/// Whatever the depth of the queue, a poll takes exactly the evaluated peer
/// out of it and leaves the registry and the other waiting peers as they
/// are; it asks for no dial but of that peer.
pub proof fn lemma_poll_evaluates_one(s: SchedulerState, local: Seq<u8>)
    ensures
        poll_state(s).known == s.known,
        s.pending.len() > 0 ==> poll_state(s).pending.len() == s.pending.len() - 1,
        s.pending.len() > 0 ==> s.pending == poll_state(s).pending.push(evaluated(s).unwrap()),
        poll_action(s, local) is Some ==> poll_action(s, local) == evaluated(s),
{
    if s.pending.len() > 0 {
    }
}

/// A peer that waits once waits no longer after the poll that evaluates
/// it, whether that poll asks to dial it or not.
pub proof fn lemma_evaluated_leaves_queue(s: SchedulerState, id: Seq<u8>)
    requires
        evaluated(s) == Some(id),
        occurrences(s.pending, id) == 1,
    ensures
        !poll_state(s).pending.contains(id),
{
    lemma_occurrences_none(poll_state(s).pending, id);
}

/// A known peer that does not wait is not evaluated by any later poll,
/// unless it is reported gone in between (and can then be reported
/// reachable anew).
pub proof fn lemma_no_retry(s: SchedulerState, steps: Seq<Step>, id: Seq<u8>)
    requires
        s.known.contains(id),
        !s.pending.contains(id),
        not_expired_from(steps, 0, id),
    ensures
        !run(s, steps).pending.contains(id),
        forall|i: int|
            0 <= i < steps.len() ==> evaluated(#[trigger] run(s, steps.take(i))) != Some(id),
{
    lemma_occurrences_none(s.pending, id);
    lemma_no_duplicate_enqueue(s, steps, id);
    lemma_occurrences_none(run(s, steps).pending, id);
    assert forall|i: int| 0 <= i < steps.len() implies evaluated(
        #[trigger] run(s, steps.take(i)),
    ) != Some(id) by {
        let front = steps.take(i);
        assert(not_expired_from(front, 0, id)) by {
            assert forall|j: int| 0 <= j < front.len() implies front[j] == steps[j] by {}
        }
        lemma_no_duplicate_enqueue(s, front, id);
        lemma_occurrences_none(run(s, front).pending, id);
    }
}

/// Polls of a scheduler in which no peer waits, however many, leave it as
/// it is, and none of them asks for a dial.
pub proof fn lemma_idle_polls(s: SchedulerState, steps: Seq<Step>, local: Seq<u8>)
    requires
        s.pending.len() == 0,
        forall|i: int| 0 <= i < steps.len() ==> #[trigger] steps[i] is Poll,
    ensures
        run(s, steps) == s,
        poll_action(run(s, steps), local) is None,
    decreases steps.len(),
{
    if steps.len() > 0 {
        let front = steps.drop_last();
        assert forall|i: int| 0 <= i < front.len() implies #[trigger] front[i] is Poll by {
            assert(front[i] == steps[i]);
        }
        lemma_idle_polls(s, front, local);
    }
}

} // verus!
