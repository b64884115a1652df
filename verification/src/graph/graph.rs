use std::collections::HashMap;
use vstd::prelude::*;
use vstd::std_specs::iter::IteratorSpec;

use crate::graph::edge::Edge;
use crate::graph::node::Node;

verus! {

broadcast use vstd::std_specs::hash::group_hash_axioms;

/// A directed graph as two maps keyed by node identifier: the nodes, and for
/// each source the edges that leave it, in the order they were added.
///
/// Identifiers are free-standing: an edge may name an identifier that no node
/// has.
pub struct Graph<TNode, TEdge> {
    /// The nodes by identifier.
    pub nodes: HashMap<u32, TNode>,
    /// The outgoing edges by source identifier.
    pub edges: HashMap<u32, Vec<TEdge>>,
}

/// A graph as contracts speak of it: the nodes by identifier, and for each
/// source the edges that leave it, in the order they were added.
pub struct GraphView<TNode, TEdge> {
    /// The nodes by identifier.
    pub nodes: Map<u32, TNode>,
    /// The outgoing edges by source identifier.
    pub edges: Map<u32, Seq<TEdge>>,
}

impl<TNode, TEdge> GraphView<TNode, TEdge> {
    /// The graph without node or adjacency entry.
    pub open spec fn empty() -> Self {
        GraphView { nodes: Map::empty(), edges: Map::empty() }
    }

    /// The edges that leave `id`, in the order they were added; none where
    /// the graph has no adjacency entry for `id`.
    pub open spec fn out_edges(self, id: u32) -> Seq<TEdge> {
        if self.edges.contains_key(id) {
            self.edges[id]
        } else {
            Seq::empty()
        }
    }

    /// This graph with `node` stored under `id`, in place of any node that
    /// was stored there.
    pub open spec fn with_node(self, id: u32, node: TNode) -> Self {
        GraphView { nodes: self.nodes.insert(id, node), edges: self.edges }
    }

    /// This graph with `edge` appended to the adjacency entry of `from`.
    pub open spec fn with_edge(self, from: u32, edge: TEdge) -> Self {
        GraphView {
            nodes: self.nodes,
            edges: self.edges.insert(from, self.out_edges(from).push(edge)),
        }
    }
}

impl<TNode, TEdge> View for Graph<TNode, TEdge> {
    type V = GraphView<TNode, TEdge>;

    open spec fn view(&self) -> GraphView<TNode, TEdge> {
        GraphView { nodes: self.nodes@, edges: self.edges@.map_values(|list: Vec<TEdge>| list@) }
    }
}

/// The concatenation of the lists that `adjacency` holds for `keys`, in the
/// order of `keys`.
pub open spec fn edges_along<TEdge>(adjacency: Map<u32, Seq<TEdge>>, keys: Seq<u32>) -> Seq<TEdge>
    decreases keys.len(),
{
    if keys.len() == 0 {
        Seq::empty()
    } else {
        edges_along(adjacency, keys.drop_last()) + adjacency[keys.last()]
    }
}

/// Whether `keys` lists every key of `m` exactly once.
pub open spec fn enumerates<V>(keys: Seq<u32>, m: Map<u32, V>) -> bool {
    &&& keys.no_duplicates()
    &&& keys.to_set() == m.dom()
}

/// The keys of the pairs that a walk over a hash map yields list every key of
/// the map once.
proof fn lemma_pairs_enumerate<V>(m: Map<u32, V>, pairs: Seq<(&u32, &V)>, keys: Seq<u32>)
    requires
        pairs.no_duplicates(),
        pairs.len() == m.dom().len(),
        keys.len() == pairs.len(),
        forall|i: int| 0 <= i < pairs.len() ==> keys[i] == *pairs[i].0,
        forall|i: int|
            0 <= i < pairs.len() ==> m.contains_key(*pairs[i].0) && m[*pairs[i].0] == *pairs[i].1,
        forall|k: u32| #[trigger] m.contains_key(k) ==> pairs.contains((&k, &m[k])),
    ensures
        enumerates(keys, m),
{
    assert forall|i: int, j: int|
        0 <= i < keys.len() && 0 <= j < keys.len() && i != j implies keys[i] != keys[j] by {
        if keys[i] == keys[j] {
            assert(pairs[i] == pairs[j]);
        }
    }
    assert forall|k: u32| m.dom().contains(k) implies keys.to_set().contains(k) by {
        let p = (&k, &m[k]);
        assert(pairs.contains(p));
        let i = choose|i: int| 0 <= i < pairs.len() && pairs[i] == p;
        assert(keys[i] == k);
    }
    assert(keys.to_set() =~= m.dom());
}

/// Last write wins: a node that is added is the one entry under its
/// identifier, whatever was stored there; every other entry stays, and of two
/// nodes that are added under one identifier the second is kept, as if the
/// first had never been added.
pub proof fn lemma_last_write_wins<TNode, TEdge>(
    graph: GraphView<TNode, TEdge>,
    id: u32,
    first: TNode,
    second: TNode,
)
    ensures
        graph.with_node(id, first).nodes.contains_key(id),
        graph.with_node(id, first).nodes[id] == first,
        graph.with_node(id, first).nodes.dom() == graph.nodes.dom().insert(id),
        forall|other: u32|
            other != id && graph.nodes.contains_key(other) ==> graph.with_node(
                id,
                first,
            ).nodes[other] == graph.nodes[other],
        graph.with_node(id, first).with_node(id, second) == graph.with_node(id, second),
{
    assert(graph.with_node(id, first).with_node(id, second).nodes =~= graph.with_node(
        id,
        second,
    ).nodes);
}

impl<TNode: Node, TEdge: Edge> Default for Graph<TNode, TEdge> {
    fn default() -> (graph: Self)
        ensures
            graph.is_empty(),
    {
        Graph::new()
    }
}

impl<TNode: Node, TEdge: Edge> Graph<TNode, TEdge> {
    /// Whether the graph has neither node nor adjacency entry.
    pub open spec fn is_empty(&self) -> bool {
        self@ == GraphView::<TNode, TEdge>::empty()
    }

    /// Creates an empty graph.
    pub fn new() -> (graph: Self)
        ensures
            graph.is_empty(),
    {
        let graph = Graph { nodes: HashMap::new(), edges: HashMap::new() };
        assert(graph@.edges =~= Map::<u32, Seq<TEdge>>::empty());
        graph
    }

    /// Adds a node under its identifier. A node that was stored under the
    /// same identifier is replaced.
    pub fn add_node(&mut self, node: TNode)
        ensures
            final(self)@ == old(self)@.with_node(node.spec_id(), node),
    {
        let id: u32 = node.id();
        self.nodes.insert(id, node);
    }

    /// Returns the nodes of the graph, each once, in no particular order.
    pub fn get_nodes(&self) -> (nodes: Vec<&TNode>)
        ensures
            exists|keys: Seq<u32>| #[trigger]
                enumerates(keys, self@.nodes) && nodes@ == keys.map_values(
                    |k: u32| &self@.nodes[k],
                ),
    {
        let mut nodes: Vec<&TNode> = Vec::new();
        let ghost mut keys: Seq<u32> = Seq::empty();
        let ghost pairs = self.nodes.iter().remaining();
        for pair in it: self.nodes.iter()
            invariant
                it.seq() == pairs,
                keys.len() == it.index(),
                nodes@.len() == it.index(),
                forall|j: int| 0 <= j < keys.len() ==> keys[j] == *pairs[j].0,
                forall|j: int| 0 <= j < keys.len() ==> nodes@[j] == pairs[j].1,
        {
            proof {
                keys = keys.push(*pair.0);
            }
            nodes.push(pair.1);
        }
        proof {
            lemma_pairs_enumerate(self.nodes@, pairs, keys);
            assert(nodes@ =~= keys.map_values(|k: u32| &self@.nodes[k]));
            assert(enumerates(keys, self@.nodes));
        }
        nodes
    }

    /// The edges that leave `id`, in the order they were added; none where
    /// the graph has no adjacency entry for `id`.
    pub open spec fn out_edges(&self, id: u32) -> Seq<TEdge> {
        self@.out_edges(id)
    }

    /// Appends an edge to the adjacency entry of its source, and creates the
    /// entry where there was none. Neither endpoint needs to be a node of the
    /// graph.
    pub fn add_edge(&mut self, edge: TEdge)
        ensures
            final(self)@ == old(self)@.with_edge(edge.spec_from(), edge),
    {
        let from: u32 = edge.from();
        let mut list: Vec<TEdge> = match self.edges.remove(&from) {
            Some(list) => list,
            None => Vec::new(),
        };
        list.push(edge);
        self.edges.insert(from, list);
        assert(final(self)@.edges =~= old(self)@.with_edge(edge.spec_from(), edge).edges);
    }

    /// Returns the edges of the graph: the adjacency entries one after the
    /// other in no particular order, each with its edges in the order they
    /// were added.
    pub fn get_edges(&self) -> (edges: Vec<&TEdge>)
        ensures
            exists|keys: Seq<u32>| #[trigger]
                enumerates(keys, self@.edges) && edges@ == edges_along(
                    self@.edges,
                    keys,
                ).map_values(|e: TEdge| &e),
    {
        let mut edges: Vec<&TEdge> = Vec::new();
        let ghost mut keys: Seq<u32> = Seq::empty();
        let ghost pairs = self.edges.iter().remaining();
        for pair in it: self.edges.iter()
            invariant
                it.seq() == pairs,
                keys.len() == it.index(),
                forall|j: int| 0 <= j < keys.len() ==> keys[j] == *pairs[j].0,
                forall|j: int|
                    0 <= j < pairs.len() ==> self.edges@.contains_key(*pairs[j].0)
                        && self.edges@[*pairs[j].0] == *pairs[j].1,
                edges@ == edges_along(self@.edges, keys).map_values(|e: TEdge| &e),
        {
            let list: &Vec<TEdge> = pair.1;
            let ghost before = edges@;
            let mut i: usize = 0;
            while i < list.len()
                invariant
                    i <= list.len(),
                    edges@ == before + list@.take(i as int).map_values(|e: TEdge| &e),
                decreases list.len() - i,
            {
                edges.push(&list[i]);
                i = i + 1;
                assert(edges@ =~= before + list@.take(i as int).map_values(|e: TEdge| &e));
            }
            proof {
                let longer = keys.push(*pair.0);
                assert(longer.drop_last() =~= keys);
                assert(list@.take(i as int) =~= list@);
                assert(self@.edges[*pair.0] == list@);
                assert(edges@ =~= edges_along(self@.edges, longer).map_values(|e: TEdge| &e));
                keys = longer;
            }
        }
        proof {
            lemma_pairs_enumerate(self.edges@, pairs, keys);
            assert(self@.edges.dom() =~= self.edges@.dom());
            assert(enumerates(keys, self@.edges));
        }
        edges
    }
}

} // verus!
