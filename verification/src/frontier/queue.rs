use std::collections::HashSet;
use std::collections::VecDeque;
use vstd::prelude::*;

use crate::frontier::{id_space, lemma_id_set_bounded, Frontier, Pending};
use crate::graph::edge::Cost;

verus! {

broadcast use vstd::std_specs::hash::group_hash_axioms;

/// A first-in-first-out frontier: identifiers leave in the order they came,
/// which gives breadth-first exploration. It ignores costs and takes each
/// identifier at most once, whether or not it has left again.
pub struct Queue {
    /// The identifiers that wait, the oldest first.
    pub opened: VecDeque<u32>,
    /// Every identifier that was ever pushed.
    pub visited: HashSet<u32>,
}

impl View for Queue {
    type V = Pending;

    open spec fn view(&self) -> Pending {
        Pending { waiting: self.opened@, seen: self.visited@ }
    }
}

impl Frontier for Queue {
    open spec fn pending(&self) -> nat {
        self@.waiting.len()
    }

    open spec fn deduplicates() -> bool {
        true
    }

    open spec fn room(&self) -> nat {
        (id_space() - self@.seen.len()) as nat
    }

    open spec fn accepts(&self, id: u32, cost: Option<Cost>) -> bool {
        !self@.seen.contains(id)
    }

    open spec fn pushed(&self, id: u32, cost: Option<Cost>, after: &Self) -> bool {
        &&& after@.seen == self@.seen.insert(id)
        &&& after@.waiting == if self@.seen.contains(id) {
            self@.waiting
        } else {
            self@.waiting.push(id)
        }
    }

    open spec fn next(&self) -> Option<u32> {
        if self@.waiting.len() > 0 {
            Some(self@.waiting.first())
        } else {
            None
        }
    }

    open spec fn popped(&self, after: &Self) -> bool {
        &&& after@.seen == self@.seen
        &&& after@.waiting == if self@.waiting.len() > 0 {
            self@.waiting.drop_first()
        } else {
            self@.waiting
        }
    }

    fn new() -> (frontier: Self)
        ensures
            frontier@.waiting == Seq::<u32>::empty(),
            frontier@.seen == Set::<u32>::empty(),
    {
        Queue { opened: VecDeque::new(), visited: HashSet::new() }
    }

    fn push(&mut self, id: u32, cost: Option<Cost>) -> (accepted: bool) {
        proof {
            lemma_id_set_bounded(self@.seen);
            lemma_id_set_bounded(self@.seen.insert(id));
        }
        if !self.visited.contains(&id) {
            self.opened.push_back(id);
            self.visited.insert(id);
            return true;
        }
        assert(self@.seen.insert(id) =~= self@.seen);
        false
    }

    fn pop(&mut self) -> (id: Option<u32>) {
        self.opened.pop_front()
    }

    fn is_empty(&self) -> (empty: bool) {
        self.opened.len() == 0
    }
}

} // verus!
