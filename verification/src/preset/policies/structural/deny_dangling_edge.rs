use vstd::prelude::*;

use crate::graph::{Edge, Graph, Node};
use crate::policy::Policy;

verus! {

broadcast use vstd::std_specs::hash::group_hash_axioms;

/// Admits the edges whose two endpoints are keys of the graph's node map.
#[derive(Debug, Default)]
pub struct DenyDanglingEdge {}

impl<Entity, TNode, TEdge> Policy<Entity, Graph<TNode, TEdge>> for DenyDanglingEdge where
    Entity: Edge,
    TNode: Node,
    TEdge: Edge,
 {
    open spec fn complies(&self, entity: &Entity, context: &Graph<TNode, TEdge>) -> bool {
        context@.nodes.contains_key(entity.spec_from()) && context@.nodes.contains_key(
            entity.spec_to(),
        )
    }

    fn is_compliant(&self, entity: &Entity, context: &Graph<TNode, TEdge>) -> (compliant: bool) {
        let from: u32 = entity.from();
        let to: u32 = entity.to();
        context.nodes.contains_key(&from) && context.nodes.contains_key(&to)
    }
}

} // verus!
