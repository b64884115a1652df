use std::collections::HashMap;
use vstd::prelude::*;

use crate::frontier::{id_space, lemma_id_set_bounded};
use crate::graph::edge::Cost;
use crate::policy::Policy;
use crate::preset::visitors::count_visited::CountVisited;
use crate::preset::visitors::track_parent::TrackParent;
use crate::strategy::visitor::Visitor;

verus! {

broadcast use vstd::std_specs::hash::group_hash_axioms;

/// A visitor that lets every node be reached once: a connection is explored
/// only towards a node that is not yet on record. With a queue it searches
/// breadth first, with a stack depth first.
///
/// A policy, put to the node just visited with the visitor as context, decides
/// when the traversal stops.
#[derive(Debug)]
pub struct SimpleVisitor<P> {
    /// The nodes on record, each with the node from which it was first
    /// reached; `None` for a node that was visited without having been
    /// reached.
    pub visited: HashMap<u32, Option<u32>>,
    /// The policy that ends the traversal.
    pub terminate: P,
}

impl<P: Default> Default for SimpleVisitor<P> {
    /// Creates a visitor without records.
    fn default() -> (visitor: Self)
        ensures
            visitor.visited@ == Map::<u32, Option<u32>>::empty(),
    {
        SimpleVisitor::<P> { visited: HashMap::new(), terminate: P::default() }
    }
}

impl<P> SimpleVisitor<P> where P: Policy<u32, Self> {
    /// Creates a visitor without records that stops as `terminate` says.
    pub fn new(terminate: P) -> (visitor: Self)
        ensures
            visitor.visited@ == Map::<u32, Option<u32>>::empty(),
            visitor.terminate == terminate,
    {
        SimpleVisitor::<P> { visited: HashMap::new(), terminate }
    }
}

impl<P> SimpleVisitor<P> {
    /// Whether `after` is this visitor with `node_id` put on record under
    /// `parent`, unless it was on record already.
    pub open spec fn recorded(&self, node_id: u32, parent: Option<u32>, after: &Self) -> bool {
        &&& after.terminate == self.terminate
        &&& after.visited@ == if self.visited@.contains_key(node_id) {
            self.visited@
        } else {
            self.visited@.insert(node_id, parent)
        }
    }

    /// Puts `node_id` on record under `parent`, unless it is on record
    /// already; returns whether it was new.
    fn record(&mut self, node_id: u32, parent: Option<u32>) -> (new: bool)
        ensures
            new == !old(self).visited@.contains_key(node_id),
            old(self).recorded(node_id, parent, final(self)),
            final(self).slack() <= old(self).slack(),
            new ==> final(self).slack() < old(self).slack(),
    {
        proof {
            lemma_id_set_bounded(self.visited@.dom());
            lemma_id_set_bounded(self.visited@.dom().insert(node_id));
        }
        if self.visited.contains_key(&node_id) {
            false
        } else {
            self.visited.insert(node_id, parent);
            assert(final(self).visited@.dom() =~= old(self).visited@.dom().insert(node_id));
            true
        }
    }

    /// The number of identifiers that are not on record.
    pub open spec fn slack(&self) -> nat {
        (id_space() - self.visited@.dom().len()) as nat
    }
}

impl<P> CountVisited for SimpleVisitor<P> {
    open spec fn spec_visited_count(&self) -> usize {
        self.visited@.len() as usize
    }

    fn visited_count(&self) -> (count: usize) {
        self.visited.len()
    }
}

impl<P> TrackParent for SimpleVisitor<P> {
    open spec fn spec_parent(&self, node_id: u32) -> Option<u32> {
        if self.visited@.contains_key(node_id) {
            self.visited@[node_id]
        } else {
            None
        }
    }

    fn get_parent(&self, node_id: u32) -> (parent: Option<u32>) {
        match self.visited.get(&node_id) {
            Some(parent) => *parent,
            None => None,
        }
    }
}

impl<Ctx, P> Visitor<Ctx> for SimpleVisitor<P> where P: Policy<u32, Self> {
    open spec fn spec_init_cost(&self, node_id: u32, context: &Ctx) -> Cost {
        0
    }

    open spec fn spec_exploration_cost(&self, from: u32, to: u32, context: &Ctx) -> Cost {
        1
    }

    open spec fn explores(&self, from: u32, to: u32, context: &Ctx) -> bool {
        !self.visited@.contains_key(to)
    }

    open spec fn explored(&self, from: u32, to: u32, context: &Ctx, after: &Self) -> bool {
        self.recorded(to, Some(from), after)
    }

    open spec fn visited(&self, node_id: u32, context: &Ctx, after: &Self) -> bool {
        self.recorded(node_id, None, after)
    }

    open spec fn stops(&self, node_id: u32, context: &Ctx) -> bool {
        self.terminate.complies(&node_id, self)
    }

    open spec fn potential(&self) -> nat {
        self.slack()
    }

    open spec fn converges() -> bool {
        true
    }

    fn init_cost(&self, _node_id: u32, _context: &Ctx) -> (cost: Cost) {
        0
    }

    fn exploration_cost(&self, _from: u32, _to: u32, _context: &Ctx) -> (cost: Cost) {
        1
    }

    /// Agrees where `to` is not on record, and records `from` as the node
    /// from which it was reached.
    fn should_explore(&mut self, from: u32, to: u32, _context: &Ctx) -> (explore: bool) {
        self.record(to, Some(from))
    }

    /// Puts `node_id` on record, unless it is on record already.
    fn visit(&mut self, node_id: u32, _context: &Ctx) {
        self.record(node_id, None);
    }

    fn should_stop(&self, node_id: u32, _context: &Ctx) -> (stop: bool) {
        self.terminate.is_compliant(&node_id, self)
    }
}

} // verus!
