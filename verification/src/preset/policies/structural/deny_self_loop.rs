use vstd::prelude::*;

use crate::graph::{Edge, Graph, Node};
use crate::policy::Policy;

verus! {

/// Admits the edges that do not lead back to their own source.
#[derive(Debug, Default)]
pub struct DenySelfLoop {}

impl<Entity, TNode, TEdge> Policy<Entity, Graph<TNode, TEdge>> for DenySelfLoop where
    Entity: Edge,
    TNode: Node,
    TEdge: Edge,
 {
    open spec fn complies(&self, entity: &Entity, context: &Graph<TNode, TEdge>) -> bool {
        entity.spec_from() != entity.spec_to()
    }

    fn is_compliant(&self, entity: &Entity, _context: &Graph<TNode, TEdge>) -> (compliant: bool) {
        entity.from() != entity.to()
    }
}

} // verus!
