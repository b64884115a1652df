use vstd::prelude::*;

use crate::graph::{Edge, Graph, Node};
use crate::policy::Policy;

verus! {

/// Admits entities while the graph holds fewer edges than a budget.
#[derive(Debug)]
pub struct EdgeBudget {
    budget: usize,
}

impl EdgeBudget {
    /// The number of edges at which nothing is admitted any more.
    pub closed spec fn limit(&self) -> nat {
        self.budget as nat
    }

    /// Creates the policy for a budget of `budget` edges.
    pub fn new(budget: u32) -> (policy: EdgeBudget)
        ensures
            policy.limit() == budget,
    {
        EdgeBudget { budget: budget as usize }
    }
}

impl<Entity, TNode, TEdge> Policy<Entity, Graph<TNode, TEdge>> for EdgeBudget where
    TNode: Node,
    TEdge: Edge,
 {
    open spec fn complies(&self, entity: &Entity, context: &Graph<TNode, TEdge>) -> bool {
        context.edge_count() < self.limit()
    }

    fn is_compliant(&self, _entity: &Entity, context: &Graph<TNode, TEdge>) -> (compliant: bool) {
        context.count_edges() < self.budget
    }
}

} // verus!
