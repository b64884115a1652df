//! The order in which the frontiers hand out what they were given.
use vstd::prelude::*;

use crate::frontier::max_heap::{lemma_first_max, MaxHeap};
use crate::frontier::min_heap::{lemma_first_min, MinHeap};
use crate::frontier::queue::Queue;
use crate::frontier::stack::Stack;
use crate::frontier::Frontier;

verus! {

/// Whether pushing the first `n` of `ids`, in order and without costs, takes
/// a frontier from `before` to `after`.
pub open spec fn pushes<F: Frontier>(before: F, ids: Seq<u32>, n: nat, after: F) -> bool
    decreases n,
{
    if n == 0 {
        after == before
    } else {
        exists|f: F|
            pushes(before, ids, (n - 1) as nat, f) && #[trigger] f.pushed(ids[n - 1], None, &after)
    }
}

/// Whether `n` pops take a frontier from `before` to `after` and return the
/// first `n` of `out`, in order.
pub open spec fn pops<F: Frontier>(before: F, out: Seq<u32>, n: nat, after: F) -> bool
    decreases n,
{
    if n == 0 {
        after == before
    } else {
        exists|f: F|
            pops(before, out, (n - 1) as nat, f) && f.next() == Some(out[n - 1])
                && #[trigger] f.popped(&after)
    }
}

/// Whether none of `ids` occurs twice and the queue has seen none of them.
pub open spec fn fresh(ids: Seq<u32>, seen: Set<u32>) -> bool {
    &&& ids.no_duplicates()
    &&& forall|i: int| 0 <= i < ids.len() ==> !seen.contains(#[trigger] ids[i])
}

/// Identifiers that a queue has not seen, none of them twice, queue up
/// behind what waits, in the order they are pushed.
pub proof fn lemma_queue_pushes(before: Queue, ids: Seq<u32>, n: nat, filled: Queue)
    requires
        n <= ids.len(),
        fresh(ids, before@.seen),
        pushes(before, ids, n, filled),
    ensures
        filled@.waiting == before@.waiting + ids.take(n as int),
        filled@.seen == before@.seen.union(ids.take(n as int).to_set()),
    decreases n,
{
    if n == 0 {
        assert(filled@.waiting =~= before@.waiting + ids.take(0));
        assert(filled@.seen =~= before@.seen.union(ids.take(0).to_set()));
    } else {
        let q = choose|q: Queue|
            pushes(before, ids, (n - 1) as nat, q) && #[trigger] q.pushed(
                ids[n - 1],
                None,
                &filled,
            );
        lemma_queue_pushes(before, ids, (n - 1) as nat, q);
        let id = ids[n - 1];
        assert(!q@.seen.contains(id)) by {
            if ids.take(n - 1).to_set().contains(id) {
                let prefix = ids.take(n - 1);
                let i = choose|i: int| 0 <= i < prefix.len() && prefix[i] == id;
                assert(ids[i] == ids[n - 1]);
            }
        }
        assert(ids.take(n as int) =~= ids.take(n - 1).push(id));
        assert(filled@.waiting =~= before@.waiting + ids.take(n as int));
        assert(filled@.seen =~= before@.seen.union(ids.take(n as int).to_set())) by {
            ids.take(n - 1).lemma_push_to_set_commute(id);
        }
    }
}

/// A queue hands out what waits from the front.
pub proof fn lemma_queue_pops(filled: Queue, out: Seq<u32>, n: nat, drained: Queue)
    requires
        n <= out.len(),
        pops(filled, out, n, drained),
    ensures
        n <= filled@.waiting.len(),
        out.take(n as int) == filled@.waiting.take(n as int),
        drained@.waiting == filled@.waiting.skip(n as int),
    decreases n,
{
    if n == 0 {
        assert(out.take(0) =~= filled@.waiting.take(0));
        assert(drained@.waiting =~= filled@.waiting.skip(0));
    } else {
        let q = choose|q: Queue|
            pops(filled, out, (n - 1) as nat, q) && q.next() == Some(out[n - 1])
                && #[trigger] q.popped(&drained);
        lemma_queue_pops(filled, out, (n - 1) as nat, q);
        assert(q@.waiting.len() > 0);
        assert(q@.waiting.first() == filled@.waiting[n - 1]);
        assert(out.take(n as int) =~= out.take(n - 1).push(out[n - 1]));
        let waiting = filled@.waiting;
        assert(waiting.take(n as int) =~= waiting.take(n - 1).push(waiting[n - 1]));
        assert(drained@.waiting =~= filled@.waiting.skip(n as int));
    }
}

/// First in, first out: identifiers that are pushed on an empty queue that
/// has seen none of them, none of them twice, are popped in the order they
/// were pushed.
pub proof fn lemma_queue_first_in_first_out(
    before: Queue,
    ids: Seq<u32>,
    filled: Queue,
    out: Seq<u32>,
    drained: Queue,
)
    requires
        before@.waiting.len() == 0,
        fresh(ids, before@.seen),
        pushes(before, ids, ids.len(), filled),
        out.len() == ids.len(),
        pops(filled, out, out.len(), drained),
    ensures
        out == ids,
        drained.pending() == 0,
{
    lemma_queue_pushes(before, ids, ids.len(), filled);
    lemma_queue_pops(filled, out, out.len(), drained);
    assert(ids.take(ids.len() as int) =~= ids);
    assert(out.take(out.len() as int) =~= out);
    assert(filled@.waiting =~= ids);
    assert(filled@.waiting.take(ids.len() as int) =~= ids);
}

/// Identifiers that a stack has not seen, none of them twice, pile up on
/// what waits, in the order they are pushed.
pub proof fn lemma_stack_pushes(before: Stack, ids: Seq<u32>, n: nat, filled: Stack)
    requires
        n <= ids.len(),
        fresh(ids, before@.seen),
        pushes(before, ids, n, filled),
    ensures
        filled@.waiting == before@.waiting + ids.take(n as int),
        filled@.seen == before@.seen.union(ids.take(n as int).to_set()),
    decreases n,
{
    if n == 0 {
        assert(filled@.waiting =~= before@.waiting + ids.take(0));
        assert(filled@.seen =~= before@.seen.union(ids.take(0).to_set()));
    } else {
        let s = choose|s: Stack|
            pushes(before, ids, (n - 1) as nat, s) && #[trigger] s.pushed(
                ids[n - 1],
                None,
                &filled,
            );
        lemma_stack_pushes(before, ids, (n - 1) as nat, s);
        let id = ids[n - 1];
        assert(!s@.seen.contains(id)) by {
            if ids.take(n - 1).to_set().contains(id) {
                let prefix = ids.take(n - 1);
                let i = choose|i: int| 0 <= i < prefix.len() && prefix[i] == id;
                assert(ids[i] == ids[n - 1]);
            }
        }
        assert(ids.take(n as int) =~= ids.take(n - 1).push(id));
        assert(filled@.waiting =~= before@.waiting + ids.take(n as int));
        assert(filled@.seen =~= before@.seen.union(ids.take(n as int).to_set())) by {
            ids.take(n - 1).lemma_push_to_set_commute(id);
        }
    }
}

/// A stack hands out what waits from the top.
pub proof fn lemma_stack_pops(filled: Stack, out: Seq<u32>, n: nat, drained: Stack)
    requires
        n <= out.len(),
        pops(filled, out, n, drained),
    ensures
        n <= filled@.waiting.len(),
        forall|i: int| 0 <= i < n ==> out[i] == filled@.waiting[filled@.waiting.len() - 1 - i],
        drained@.waiting == filled@.waiting.take(filled@.waiting.len() - n),
    decreases n,
{
    if n == 0 {
        assert(drained@.waiting =~= filled@.waiting.take(filled@.waiting.len() as int));
    } else {
        let s = choose|s: Stack|
            pops(filled, out, (n - 1) as nat, s) && s.next() == Some(out[n - 1])
                && #[trigger] s.popped(&drained);
        lemma_stack_pops(filled, out, (n - 1) as nat, s);
        assert(s@.waiting.len() > 0);
        assert(drained@.waiting =~= filled@.waiting.take(filled@.waiting.len() - n));
    }
}

/// Last in, first out: identifiers that are pushed on an empty stack that
/// has seen none of them, none of them twice, are popped in the reverse of
/// the order they were pushed.
pub proof fn lemma_stack_last_in_first_out(
    before: Stack,
    ids: Seq<u32>,
    filled: Stack,
    out: Seq<u32>,
    drained: Stack,
)
    requires
        before@.waiting.len() == 0,
        fresh(ids, before@.seen),
        pushes(before, ids, ids.len(), filled),
        out.len() == ids.len(),
        pops(filled, out, out.len(), drained),
    ensures
        out == ids.reverse(),
        drained.pending() == 0,
{
    lemma_stack_pushes(before, ids, ids.len(), filled);
    lemma_stack_pops(filled, out, out.len(), drained);
    assert(ids.take(ids.len() as int) =~= ids);
    assert(filled@.waiting =~= ids);
    assert(out =~= ids.reverse());
}

/// Least cost first: whatever was pushed, the identifier that a heap of least
/// cost hands out next waits at a cost that no entry undercuts, and the
/// entries that stay behind are all the others, in the order they came.
pub proof fn lemma_min_heap_hands_out_least(heap: MinHeap, after: MinHeap)
    requires
        heap.pending() > 0,
        heap.popped(&after),
    ensures
        0 <= heap.front() < heap@.len(),
        heap.next() == Some(heap@[heap.front()].1),
        forall|j: int|
            0 <= j < heap@.len() ==> heap@[heap.front()].0 <= (
            #[trigger] heap@[j]).0,
        forall|j: int|
            0 <= j < after@.len() ==> heap@[heap.front()].0 <= (
            #[trigger] after@[j]).0,
        after@ == heap@.remove(heap.front()),
{
    lemma_first_min(heap@, heap@.len());
}

/// Greatest cost first: whatever was pushed, the identifier that a heap of
/// greatest cost hands out next waits at a cost that no entry exceeds, and
/// the entries that stay behind are all the others, in the order they came.
pub proof fn lemma_max_heap_hands_out_greatest(heap: MaxHeap, after: MaxHeap)
    requires
        heap.pending() > 0,
        heap.popped(&after),
    ensures
        0 <= heap.front() < heap@.len(),
        heap.next() == Some(heap@[heap.front()].1),
        forall|j: int|
            0 <= j < heap@.len() ==> heap@[heap.front()].0 >= (
            #[trigger] heap@[j]).0,
        forall|j: int|
            0 <= j < after@.len() ==> heap@[heap.front()].0 >= (
            #[trigger] after@[j]).0,
        after@ == heap@.remove(heap.front()),
{
    lemma_first_max(heap@, heap@.len());
}

} // verus!
