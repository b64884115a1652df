use std::marker::PhantomData;
use vstd::prelude::*;

use crate::graph::edge::{Cost, Edge};
use crate::graph::node::Node;
use crate::preset::{DataNode, EmptyNode, UnweightedEdge, WeightedEdge};
use crate::strategy::sampler::{settled, Sampler};

verus! {

/// For each node, by position, the identifiers of the nodes it leads to.
pub type AdjacencyList = Vec<Vec<u32>>;

/// For each node, by position, the nodes it leads to, each with the weight of
/// the connection.
pub type WeightedAdjacencyList = Vec<Vec<(u32, Cost)>>;

/// An adjacency list with a payload for each node.
pub struct AdjacencyListWithData<T> {
    /// The payload of each node, by position.
    pub data: Vec<T>,
    /// The nodes that each node leads to, by position.
    pub adjacency: AdjacencyList,
}

/// A weighted adjacency list with a payload for each node.
pub struct WeightedAdjacencyListWithData<T> {
    /// The payload of each node, by position.
    pub data: Vec<T>,
    /// The nodes that each node leads to, by position, with the weights.
    pub adjacency: WeightedAdjacencyList,
}

/// Samples a graph from an adjacency list: one batch per position, with the
/// node of that position and the edges that leave it, in the order of the
/// list.
#[derive(Debug)]
pub struct AdjacencySampler<N, E> {
    current_id: u32,
    _phantom: PhantomData<(N, E)>,
}

/// The sampler over a plain adjacency list.
pub type SimpleAdjacencySampler = AdjacencySampler<EmptyNode, UnweightedEdge>;

/// The sampler over a weighted adjacency list.
pub type WeightedAdjacencySampler = AdjacencySampler<EmptyNode, WeightedEdge>;

/// The sampler over an adjacency list with payloads.
pub type AdjacencyWithDataSampler<T> = AdjacencySampler<DataNode<T>, UnweightedEdge>;

/// The sampler over a weighted adjacency list with payloads.
pub type WeightedAdjacencyWithDataSampler<T> = AdjacencySampler<DataNode<T>, WeightedEdge>;

/// The edges from `from` to each of `targets`, in order.
pub open spec fn links<E: Edge>(from: u32, targets: Seq<u32>) -> Seq<E> {
    Seq::new(targets.len(), |j: int| E::spec_new(from, targets[j], None))
}

/// The edges from `from` to each of `targets`, in order, at the weights
/// given.
pub open spec fn weighted_links<E: Edge>(from: u32, targets: Seq<(u32, Cost)>) -> Seq<E> {
    Seq::new(targets.len(), |j: int| E::spec_new(from, targets[j].0, Some(targets[j].1)))
}

/// Creates the edges from `from` to each of `targets`, in order.
pub fn make_links<E: Edge>(from: u32, targets: &Vec<u32>) -> (edges: Vec<E>)
    ensures
        edges@ == links::<E>(from, targets@),
{
    let mut edges: Vec<E> = Vec::new();
    let mut j: usize = 0;
    while j < targets.len()
        invariant
            j <= targets.len(),
            edges@.len() == j,
            forall|k: int| 0 <= k < j ==> edges@[k] == E::spec_new(from, targets@[k], None),
        decreases targets.len() - j,
    {
        edges.push(E::new(from, targets[j], None));
        j = j + 1;
    }
    assert(edges@ =~= links::<E>(from, targets@));
    edges
}

/// Creates the edges from `from` to each of `targets`, in order, at the
/// weights given.
pub fn make_weighted_links<E: Edge>(from: u32, targets: &Vec<(u32, Cost)>) -> (edges: Vec<E>)
    ensures
        edges@ == weighted_links::<E>(from, targets@),
{
    let mut edges: Vec<E> = Vec::new();
    let mut j: usize = 0;
    while j < targets.len()
        invariant
            j <= targets.len(),
            edges@.len() == j,
            forall|k: int|
                0 <= k < j ==> edges@[k] == E::spec_new(
                    from,
                    targets@[k].0,
                    Some(targets@[k].1),
                ),
        decreases targets.len() - j,
    {
        edges.push(E::new(from, targets[j].0, Some(targets[j].1)));
        j = j + 1;
    }
    assert(edges@ =~= weighted_links::<E>(from, targets@));
    edges
}

/// The number of positions from `position` to the end of a list of `len`
/// positions.
pub open spec fn positions_left(position: u32, len: nat) -> nat {
    if position < len {
        (len - position) as nat
    } else {
        0
    }
}

/// The position after a call at `position` in a list of `len` positions.
pub open spec fn position_after(position: u32, len: nat) -> int {
    if position < len {
        position + 1
    } else {
        position as int
    }
}

impl<N, E> AdjacencySampler<N, E> {
    /// The position of the next batch.
    pub closed spec fn position(&self) -> u32 {
        self.current_id
    }

    /// Creates a sampler at the first position.
    pub fn new() -> (sampler: Self)
        ensures
            sampler.position() == 0,
    {
        AdjacencySampler { current_id: 0, _phantom: PhantomData }
    }

    /// Returns the position of the next batch.
    pub fn current_id(&self) -> (position: u32)
        ensures
            position == self.position(),
    {
        self.current_id
    }
}

impl AdjacencySampler<EmptyNode, UnweightedEdge> {
    /// Returns whether the sampler can read `context`.
    pub fn can_read(&self, context: &AdjacencyList) -> (readable: bool)
        ensures
            readable == self.reads(context),
    {
        context.len() <= u32::MAX as usize
    }
}

impl AdjacencySampler<EmptyNode, WeightedEdge> {
    /// Returns whether the sampler can read `context`.
    pub fn can_read(&self, context: &WeightedAdjacencyList) -> (readable: bool)
        ensures
            readable == self.reads(context),
    {
        context.len() <= u32::MAX as usize
    }
}

impl<T: Clone> AdjacencySampler<DataNode<T>, UnweightedEdge> {
    /// Returns whether the sampler can read `context`.
    pub fn can_read(&self, context: &AdjacencyListWithData<T>) -> (readable: bool)
        ensures
            readable == self.reads(context),
    {
        context.adjacency.len() <= u32::MAX as usize && context.data.len()
            == context.adjacency.len()
    }
}

impl<T: Clone> AdjacencySampler<DataNode<T>, WeightedEdge> {
    /// Returns whether the sampler can read `context`.
    pub fn can_read(&self, context: &WeightedAdjacencyListWithData<T>) -> (readable: bool)
        ensures
            readable == self.reads(context),
    {
        context.adjacency.len() <= u32::MAX as usize && context.data.len()
            == context.adjacency.len()
    }
}

/// What a sampler over an adjacency list without payloads yields is settled
/// by the list and the position.
pub proof fn lemma_adjacency_settled(
    plain: AdjacencySampler<EmptyNode, UnweightedEdge>,
    list: &AdjacencyList,
    weighted: AdjacencySampler<EmptyNode, WeightedEdge>,
    weighted_list: &WeightedAdjacencyList,
)
    ensures
        settled(plain, list),
        settled(weighted, weighted_list),
{
}

impl<N, E> Default for AdjacencySampler<N, E> {
    fn default() -> (sampler: Self)
        ensures
            sampler.position() == 0,
    {
        Self::new()
    }
}

impl Sampler<AdjacencyList> for AdjacencySampler<EmptyNode, UnweightedEdge> {
    type Node = EmptyNode;

    type Edge = UnweightedEdge;

    /// The list has a position for each identifier at most.
    open spec fn reads(&self, context: &AdjacencyList) -> bool {
        context@.len() <= u32::MAX
    }

    open spec fn remaining(&self, context: &AdjacencyList) -> nat {
        positions_left(self.position(), context@.len())
    }

    open spec fn yields(
        &self,
        context: &AdjacencyList,
        batch: Option<(Seq<EmptyNode>, Seq<UnweightedEdge>)>,
    ) -> bool {
        if self.position() < context@.len() {
            batch == Some(
                (
                    seq![EmptyNode::spec_new(self.position(), None)],
                    links::<UnweightedEdge>(self.position(), context@[self.position() as int]@),
                ),
            )
        } else {
            batch is None
        }
    }

    open spec fn advanced(&self, context: &AdjacencyList, after: &Self) -> bool {
        after.position() == position_after(self.position(), context@.len())
    }

    fn next(&mut self, context: &AdjacencyList) -> (batch: Option<
        (Vec<EmptyNode>, Vec<UnweightedEdge>),
    >) {
        let i: usize = self.current_id as usize;
        if i >= context.len() {
            return None;
        }
        let edges: Vec<UnweightedEdge> = make_links(self.current_id, &context[i]);
        let mut nodes: Vec<EmptyNode> = Vec::new();
        nodes.push(EmptyNode::new(self.current_id, None));
        assert(nodes@ =~= seq![EmptyNode::spec_new(self.current_id, None)]);
        self.current_id += 1;
        Some((nodes, edges))
    }
}

impl Sampler<WeightedAdjacencyList> for AdjacencySampler<EmptyNode, WeightedEdge> {
    type Node = EmptyNode;

    type Edge = WeightedEdge;

    /// The list has a position for each identifier at most.
    open spec fn reads(&self, context: &WeightedAdjacencyList) -> bool {
        context@.len() <= u32::MAX
    }

    open spec fn remaining(&self, context: &WeightedAdjacencyList) -> nat {
        positions_left(self.position(), context@.len())
    }

    open spec fn yields(
        &self,
        context: &WeightedAdjacencyList,
        batch: Option<(Seq<EmptyNode>, Seq<WeightedEdge>)>,
    ) -> bool {
        if self.position() < context@.len() {
            batch == Some(
                (
                    seq![EmptyNode::spec_new(self.position(), None)],
                    weighted_links::<WeightedEdge>(
                        self.position(),
                        context@[self.position() as int]@,
                    ),
                ),
            )
        } else {
            batch is None
        }
    }

    open spec fn advanced(&self, context: &WeightedAdjacencyList, after: &Self) -> bool {
        after.position() == position_after(self.position(), context@.len())
    }

    fn next(&mut self, context: &WeightedAdjacencyList) -> (batch: Option<
        (Vec<EmptyNode>, Vec<WeightedEdge>),
    >) {
        let i: usize = self.current_id as usize;
        if i >= context.len() {
            return None;
        }
        let edges: Vec<WeightedEdge> = make_weighted_links(self.current_id, &context[i]);
        let mut nodes: Vec<EmptyNode> = Vec::new();
        nodes.push(EmptyNode::new(self.current_id, None));
        assert(nodes@ =~= seq![EmptyNode::spec_new(self.current_id, None)]);
        self.current_id += 1;
        Some((nodes, edges))
    }
}

impl<T: Clone> Sampler<AdjacencyListWithData<T>> for AdjacencySampler<DataNode<T>, UnweightedEdge> {
    type Node = DataNode<T>;

    type Edge = UnweightedEdge;

    /// The list has a position for each identifier at most, and a payload
    /// for each position.
    open spec fn reads(&self, context: &AdjacencyListWithData<T>) -> bool {
        &&& context.adjacency@.len() <= u32::MAX
        &&& context.data@.len() == context.adjacency@.len()
    }

    open spec fn remaining(&self, context: &AdjacencyListWithData<T>) -> nat {
        positions_left(self.position(), context.adjacency@.len())
    }

    /// The node of a batch carries a clone of the payload of its position.
    open spec fn yields(
        &self,
        context: &AdjacencyListWithData<T>,
        batch: Option<(Seq<DataNode<T>>, Seq<UnweightedEdge>)>,
    ) -> bool {
        if self.position() < context.adjacency@.len() {
            exists|payload: T|
                #[trigger] cloned(context.data@[self.position() as int], payload) && batch == Some(
                    (
                        seq![DataNode::<T>::spec_new(self.position(), Some(payload))],
                        links::<UnweightedEdge>(
                            self.position(),
                            context.adjacency@[self.position() as int]@,
                        ),
                    ),
                )
        } else {
            batch is None
        }
    }

    open spec fn advanced(&self, context: &AdjacencyListWithData<T>, after: &Self) -> bool {
        after.position() == position_after(self.position(), context.adjacency@.len())
    }

    fn next(&mut self, context: &AdjacencyListWithData<T>) -> (batch: Option<
        (Vec<DataNode<T>>, Vec<UnweightedEdge>),
    >) {
        let i: usize = self.current_id as usize;
        if i >= context.adjacency.len() {
            return None;
        }
        let edges: Vec<UnweightedEdge> = make_links(self.current_id, &context.adjacency[i]);
        let payload: T = context.data[i].clone();
        let mut nodes: Vec<DataNode<T>> = Vec::new();
        nodes.push(DataNode::new(self.current_id, Some(payload)));
        assert(nodes@ =~= seq![DataNode::<T>::spec_new(self.current_id, Some(payload))]);
        assert(cloned(context.data@[i as int], payload));
        self.current_id += 1;
        Some((nodes, edges))
    }
}

impl<T: Clone> Sampler<WeightedAdjacencyListWithData<T>> for AdjacencySampler<
    DataNode<T>,
    WeightedEdge,
> {
    type Node = DataNode<T>;

    type Edge = WeightedEdge;

    /// The list has a position for each identifier at most, and a payload
    /// for each position.
    open spec fn reads(&self, context: &WeightedAdjacencyListWithData<T>) -> bool {
        &&& context.adjacency@.len() <= u32::MAX
        &&& context.data@.len() == context.adjacency@.len()
    }

    open spec fn remaining(&self, context: &WeightedAdjacencyListWithData<T>) -> nat {
        positions_left(self.position(), context.adjacency@.len())
    }

    /// The node of a batch carries a clone of the payload of its position.
    open spec fn yields(
        &self,
        context: &WeightedAdjacencyListWithData<T>,
        batch: Option<(Seq<DataNode<T>>, Seq<WeightedEdge>)>,
    ) -> bool {
        if self.position() < context.adjacency@.len() {
            exists|payload: T|
                #[trigger] cloned(context.data@[self.position() as int], payload) && batch == Some(
                    (
                        seq![DataNode::<T>::spec_new(self.position(), Some(payload))],
                        weighted_links::<WeightedEdge>(
                            self.position(),
                            context.adjacency@[self.position() as int]@,
                        ),
                    ),
                )
        } else {
            batch is None
        }
    }

    open spec fn advanced(&self, context: &WeightedAdjacencyListWithData<T>, after: &Self) -> bool {
        after.position() == position_after(self.position(), context.adjacency@.len())
    }

    fn next(&mut self, context: &WeightedAdjacencyListWithData<T>) -> (batch: Option<
        (Vec<DataNode<T>>, Vec<WeightedEdge>),
    >) {
        let i: usize = self.current_id as usize;
        if i >= context.adjacency.len() {
            return None;
        }
        let edges: Vec<WeightedEdge> = make_weighted_links(self.current_id, &context.adjacency[i]);
        let payload: T = context.data[i].clone();
        let mut nodes: Vec<DataNode<T>> = Vec::new();
        nodes.push(DataNode::new(self.current_id, Some(payload)));
        assert(nodes@ =~= seq![DataNode::<T>::spec_new(self.current_id, Some(payload))]);
        assert(cloned(context.data@[i as int], payload));
        self.current_id += 1;
        Some((nodes, edges))
    }
}

} // verus!
