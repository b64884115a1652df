use vstd::prelude::*;

use crate::graph::{Edge, Graph, Node};
use crate::policy::Policy;

verus! {

/// Admits the edges that no edge of the graph duplicates: none runs from the
/// same source to the same destination. Direction counts.
#[derive(Debug, Default)]
pub struct DenyParallelEdge {}

impl<Entity, TNode, TEdge> Policy<Entity, Graph<TNode, TEdge>> for DenyParallelEdge where
    Entity: Edge,
    TNode: Node,
    TEdge: Edge,
 {
    open spec fn complies(&self, entity: &Entity, context: &Graph<TNode, TEdge>) -> bool {
        !context.connects(entity.spec_from(), entity.spec_to())
    }

    fn is_compliant(&self, entity: &Entity, context: &Graph<TNode, TEdge>) -> (compliant: bool) {
        !context.has_edge(entity.from(), entity.to())
    }
}

} // verus!
