use vstd::prelude::*;

use crate::graph::{Edge, Graph, Node};
use crate::policy::Policy;

verus! {

/// Admits the nodes whose identifier no node of the graph has, so that none
/// is replaced.
#[derive(Debug, Default)]
pub struct DenyNodeOverride {}

impl<Entity, TNode, TEdge> Policy<Entity, Graph<TNode, TEdge>> for DenyNodeOverride where
    Entity: Node,
    TNode: Node,
    TEdge: Edge,
 {
    open spec fn complies(&self, entity: &Entity, context: &Graph<TNode, TEdge>) -> bool {
        !context.holds_id(entity.spec_id())
    }

    fn is_compliant(&self, entity: &Entity, context: &Graph<TNode, TEdge>) -> (compliant: bool) {
        !context.has_node(entity.id())
    }
}

} // verus!
