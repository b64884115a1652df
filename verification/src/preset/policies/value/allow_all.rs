use vstd::prelude::*;

use crate::graph::{Edge, Graph, Node};
use crate::policy::Policy;

verus! {

/// Admits every entity.
#[derive(Default)]
pub struct AllowAll {}

impl<Entity, TNode, TEdge> Policy<Entity, Graph<TNode, TEdge>> for AllowAll where
    TNode: Node,
    TEdge: Edge,
 {
    open spec fn complies(&self, entity: &Entity, context: &Graph<TNode, TEdge>) -> bool {
        true
    }

    fn is_compliant(&self, _entity: &Entity, _context: &Graph<TNode, TEdge>) -> (compliant: bool) {
        true
    }
}

} // verus!
