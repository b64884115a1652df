use vstd::prelude::*;

use crate::graph::{Edge, Graph, Node};
use crate::policy::Policy;

verus! {

broadcast use vstd::std_specs::hash::group_hash_axioms;

/// Admits entities while the graph holds fewer nodes than a budget.
#[derive(Debug)]
pub struct NodeBudget {
    budget: usize,
}

impl NodeBudget {
    /// The number of nodes at which nothing is admitted any more.
    pub closed spec fn limit(&self) -> nat {
        self.budget as nat
    }

    /// Creates the policy for a budget of `budget` nodes.
    pub fn new(budget: u32) -> (policy: NodeBudget)
        ensures
            policy.limit() == budget,
    {
        NodeBudget { budget: budget as usize }
    }
}

impl<Entity, TNode, TEdge> Policy<Entity, Graph<TNode, TEdge>> for NodeBudget where
    TNode: Node,
    TEdge: Edge,
 {
    open spec fn complies(&self, entity: &Entity, context: &Graph<TNode, TEdge>) -> bool {
        context@.nodes.len() < self.limit()
    }

    fn is_compliant(&self, _entity: &Entity, context: &Graph<TNode, TEdge>) -> (compliant: bool) {
        context.nodes.len() < self.budget
    }
}

} // verus!
