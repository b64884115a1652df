use std::collections::HashSet;

use vstd::prelude::*;

use crate::frontier::{id_space, lemma_id_set_bounded, Frontier, Pending};
use crate::graph::edge::Cost;

verus! {

broadcast use vstd::std_specs::hash::group_hash_axioms;

/// A last-in-first-out frontier: the identifier that came last leaves first,
/// which gives depth-first exploration. It ignores costs and takes each
/// identifier at most once, whether or not it has left again.
pub struct Stack {
    /// The identifiers that wait, the newest last.
    pub opened: Vec<u32>,
    /// Every identifier that was ever pushed.
    pub visited: HashSet<u32>,
}

impl View for Stack {
    type V = Pending;

    open spec fn view(&self) -> Pending {
        Pending { waiting: self.opened@, seen: self.visited@ }
    }
}

impl Frontier for Stack {
    open spec fn pending(&self) -> nat {
        self@.waiting.len()
    }

    open spec fn deduplicates() -> bool {
        true
    }

    open spec fn room(&self) -> nat {
        (id_space() - self@.seen.len()) as nat
    }

    open spec fn accepts(&self, id: u32, cost: Option<Cost>) -> bool {
        !self@.seen.contains(id)
    }

    open spec fn pushed(&self, id: u32, cost: Option<Cost>, after: &Self) -> bool {
        &&& after@.seen == self@.seen.insert(id)
        &&& after@.waiting == if self@.seen.contains(id) {
            self@.waiting
        } else {
            self@.waiting.push(id)
        }
    }

    open spec fn next(&self) -> Option<u32> {
        if self@.waiting.len() > 0 {
            Some(self@.waiting.last())
        } else {
            None
        }
    }

    open spec fn popped(&self, after: &Self) -> bool {
        &&& after@.seen == self@.seen
        &&& after@.waiting == if self@.waiting.len() > 0 {
            self@.waiting.drop_last()
        } else {
            self@.waiting
        }
    }

    fn new() -> (frontier: Self)
        ensures
            frontier@.waiting == Seq::<u32>::empty(),
            frontier@.seen == Set::<u32>::empty(),
    {
        Stack { opened: Vec::new(), visited: HashSet::new() }
    }

    fn push(&mut self, id: u32, cost: Option<Cost>) -> (accepted: bool) {
        proof {
            lemma_id_set_bounded(self@.seen);
            lemma_id_set_bounded(self@.seen.insert(id));
        }
        if !self.visited.contains(&id) {
            self.opened.push(id);
            self.visited.insert(id);
            return true;
        }
        assert(self@.seen.insert(id) =~= self@.seen);
        false
    }

    fn pop(&mut self) -> (id: Option<u32>) {
        self.opened.pop()
    }

    fn is_empty(&self) -> (empty: bool) {
        self.opened.len() == 0
    }
}

} // verus!
