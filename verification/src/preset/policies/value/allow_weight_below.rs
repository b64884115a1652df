use vstd::prelude::*;

use crate::graph::{Cost, Edge, Graph, Node};
use crate::policy::Policy;

verus! {

/// Admits the edges whose weight is strictly less than a threshold.
pub struct AllowWeightBelow {
    threshold: Cost,
}

/// The policy under its other name.
pub type AllowWeightUnder = AllowWeightBelow;

impl AllowWeightBelow {
    /// The weight that an admitted edge stays under.
    pub closed spec fn bound(&self) -> Cost {
        self.threshold
    }

    /// Creates the policy for `threshold`.
    pub fn new(threshold: Cost) -> (policy: Self)
        ensures
            policy.bound() == threshold,
    {
        AllowWeightBelow { threshold }
    }

    /// Returns the weight that an admitted edge stays under.
    pub fn threshold(&self) -> (threshold: Cost)
        ensures
            threshold == self.bound(),
    {
        self.threshold
    }
}

impl<Entity, TNode, TEdge> Policy<Entity, Graph<TNode, TEdge>> for AllowWeightBelow where
    Entity: Edge,
    TNode: Node,
    TEdge: Edge,
 {
    open spec fn complies(&self, entity: &Entity, context: &Graph<TNode, TEdge>) -> bool {
        entity.spec_weight() < self.bound()
    }

    fn is_compliant(&self, entity: &Entity, _context: &Graph<TNode, TEdge>) -> (compliant: bool) {
        entity.weight() < self.threshold
    }
}

} // verus!
