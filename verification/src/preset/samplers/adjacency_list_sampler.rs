use vstd::prelude::*;

use crate::graph::node::Node;
use crate::preset::edges::unweighted_edge::UnweightedEdge;
use crate::preset::nodes::empty_node::EmptyNode;
use crate::preset::samplers::adjacency_sampler::{
    links, make_links, position_after, positions_left,
};
use crate::strategy::sampler::{settled, Sampler};

verus! {

/// Samples a graph from a plain adjacency list, which holds for each node, by
/// position, the identifiers of the nodes it leads to: one batch per
/// position, with the node of that position and the edges that leave it, in
/// the order of the list.
#[derive(Debug)]
pub struct AdjacencyListSampler {
    current_id: u32,
}

impl AdjacencyListSampler {
    /// The position of the next batch.
    pub closed spec fn position(&self) -> u32 {
        self.current_id
    }

    /// Returns the position of the next batch.
    pub fn current_id(&self) -> (position: u32)
        ensures
            position == self.position(),
    {
        self.current_id
    }

    /// Returns whether the sampler can read `context`.
    pub fn can_read(&self, context: &Vec<Vec<u32>>) -> (readable: bool)
        ensures
            readable == self.reads(context),
    {
        context.len() <= u32::MAX as usize
    }
}

/// What the sampler yields is settled by the list and the position.
pub proof fn lemma_adjacency_list_settled(sampler: AdjacencyListSampler, list: &Vec<Vec<u32>>)
    ensures
        settled(sampler, list),
{
}

impl Default for AdjacencyListSampler {
    /// Creates a sampler at the first position.
    fn default() -> (sampler: Self)
        ensures
            sampler.position() == 0,
    {
        AdjacencyListSampler { current_id: 0 }
    }
}

impl Sampler<Vec<Vec<u32>>> for AdjacencyListSampler {
    type Node = EmptyNode;

    type Edge = UnweightedEdge;

    /// The list has a position for each identifier at most.
    open spec fn reads(&self, context: &Vec<Vec<u32>>) -> bool {
        context@.len() <= u32::MAX
    }

    open spec fn remaining(&self, context: &Vec<Vec<u32>>) -> nat {
        positions_left(self.position(), context@.len())
    }

    open spec fn yields(
        &self,
        context: &Vec<Vec<u32>>,
        batch: Option<(Seq<EmptyNode>, Seq<UnweightedEdge>)>,
    ) -> bool {
        if self.position() < context@.len() {
            batch == Some(
                (
                    seq![EmptyNode::spec_new(self.position(), None)],
                    links::<UnweightedEdge>(self.position(), context@[self.position() as int]@),
                ),
            )
        } else {
            batch is None
        }
    }

    open spec fn advanced(&self, context: &Vec<Vec<u32>>, after: &Self) -> bool {
        after.position() == position_after(self.position(), context@.len())
    }

    fn next(&mut self, context: &Vec<Vec<u32>>) -> (batch: Option<
        (Vec<EmptyNode>, Vec<UnweightedEdge>),
    >) {
        let i: usize = self.current_id as usize;
        if i >= context.len() {
            return None;
        }
        let edges: Vec<UnweightedEdge> = make_links(self.current_id, &context[i]);
        let mut nodes: Vec<EmptyNode> = Vec::new();
        nodes.push(EmptyNode::new(self.current_id, None));
        assert(nodes@ =~= seq![EmptyNode::spec_new(self.current_id, None)]);
        self.current_id += 1;
        Some((nodes, edges))
    }
}

} // verus!
