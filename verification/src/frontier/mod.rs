//! Exploration order: the strategies that decide which discovered node comes
//! next.
pub mod laws;
pub mod max_heap;
pub mod min_heap;
pub mod queue;
pub mod stack;

pub use max_heap::MaxHeap;
pub use min_heap::MinHeap;
pub use queue::Queue;
pub use stack::Stack;

use vstd::prelude::*;

use crate::graph::edge::Cost;

verus! {

/// The number of node identifiers.
pub open spec fn id_space() -> nat {
    0x1_0000_0000
}

/// A frontier that takes each identifier once, as contracts speak of it.
pub struct Pending {
    /// The identifiers that wait, in the order they came.
    pub waiting: Seq<u32>,
    /// Every identifier that was ever pushed.
    pub seen: Set<u32>,
}

/// A strategy that holds the identifiers of discovered nodes and hands them
/// out in its own order.
///
/// The spec functions are the model that contracts speak of: what a call
/// decides is a function of the state before it, and the state after it stands
/// in a relation to the state before. Each has a body that says nothing, so
/// that an implementation outside verified code needs to write the executable
/// methods only.
///
/// `pending` and `room` measure progress. A frontier that deduplicates takes
/// each identifier at most once: every push that it accepts uses up room.
pub trait Frontier: Sized {
    /// The number of identifiers that wait to be popped.
    open spec fn pending(&self) -> nat {
        arbitrary()
    }

    /// Whether this type accepts each identifier at most once.
    open spec fn deduplicates() -> bool {
        arbitrary()
    }

    /// An upper bound on the pushes that a deduplicating frontier still
    /// accepts.
    open spec fn room(&self) -> nat {
        arbitrary()
    }

    /// Whether a push of `id` with `cost` is accepted.
    open spec fn accepts(&self, id: u32, cost: Option<Cost>) -> bool {
        arbitrary()
    }

    /// Whether `after` is the state that a push of `id` with `cost` leaves.
    open spec fn pushed(&self, id: u32, cost: Option<Cost>, after: &Self) -> bool {
        arbitrary()
    }

    /// The identifier that the next pop returns.
    open spec fn next(&self) -> Option<u32> {
        arbitrary()
    }

    /// Whether `after` is the state that a pop leaves.
    open spec fn popped(&self, after: &Self) -> bool {
        arbitrary()
    }

    /// Creates an empty frontier.
    fn new() -> (frontier: Self)
        ensures
            frontier.pending() == 0,
    ;

    /// Offers `id` with priority `cost`; returns whether it was added.
    fn push(&mut self, id: u32, cost: Option<Cost>) -> (accepted: bool)
        ensures
            accepted == old(self).accepts(id, cost),
            old(self).pushed(id, cost, final(self)),
            final(self).pending() == old(self).pending() + if accepted {
                1nat
            } else {
                0nat
            },
            final(self).room() <= old(self).room(),
            Self::deduplicates() && accepted ==> final(self).room() < old(self).room(),
    ;

    /// Removes and returns the next identifier; `None` when nothing is
    /// pending.
    fn pop(&mut self) -> (id: Option<u32>)
        ensures
            id == old(self).next(),
            old(self).popped(final(self)),
            id is Some <==> old(self).pending() > 0,
            final(self).pending() == if id is Some {
                (old(self).pending() - 1) as nat
            } else {
                old(self).pending()
            },
            final(self).room() == old(self).room(),
    ;

    /// Returns whether nothing is pending.
    fn is_empty(&self) -> (empty: bool)
        ensures
            empty == (self.pending() == 0),
    ;
}

/// A set of node identifiers is finite and no larger than the identifier
/// space.
pub proof fn lemma_id_set_bounded(s: Set<u32>)
    ensures
        s.finite(),
        s.len() <= id_space(),
{
    let all = Set::<int>::new(|i: int| 0 <= i < 0x1_0000_0000);
    vstd::set_lib::lemma_int_range(0, 0x1_0000_0000);
    assert(all =~= vstd::set_lib::set_int_range(0, 0x1_0000_0000));
    let widened = s.map(|id: u32| id as int);
    assert(widened.subset_of(all)) by {
        assert forall|i: int| widened.contains(i) implies all.contains(i) by {
            let id = choose|id: u32| s.contains(id) && i == id as int;
        }
    }
    vstd::set_lib::lemma_len_subset(widened, all);
    let narrowed = widened.map(|i: int| i as u32);
    assert(narrowed =~= s) by {
        assert forall|id: u32| s.contains(id) implies narrowed.contains(id) by {
            assert(widened.contains(id as int));
            assert((id as int) as u32 == id);
        }
        assert forall|id: u32| narrowed.contains(id) implies s.contains(id) by {
            let i = choose|i: int| widened.contains(i) && id == i as u32;
            let id0 = choose|id0: u32| s.contains(id0) && i == id0 as int;
            assert(id0 == id);
        }
    }
    vstd::set_lib::lemma_map_size_bound(widened, narrowed, |i: int| i as u32);
}

} // verus!
