use vstd::prelude::*;

use crate::graph::{Edge, Graph, Node};
use crate::policy::Policy;

verus! {

/// Admits no entity.
#[derive(Default)]
pub struct DenyAll {}

impl<Entity, TNode, TEdge> Policy<Entity, Graph<TNode, TEdge>> for DenyAll where
    TNode: Node,
    TEdge: Edge,
 {
    open spec fn complies(&self, entity: &Entity, context: &Graph<TNode, TEdge>) -> bool {
        false
    }

    fn is_compliant(&self, _entity: &Entity, _context: &Graph<TNode, TEdge>) -> (compliant: bool) {
        false
    }
}

} // verus!
