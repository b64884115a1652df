use vstd::prelude::*;
use vstd::std_specs::iter::IteratorSpec;

use crate::graph::edge::{Cost, Edge};
use crate::graph::graph::{edges_along, enumerates, Graph};
use crate::graph::node::Node;

verus! {

broadcast use vstd::std_specs::hash::group_hash_axioms;

/// The sum of the lengths of the lists that `adjacency` holds for `keys`.
pub open spec fn total_len<TEdge>(adjacency: Map<u32, Seq<TEdge>>, keys: Set<u32>) -> nat
    decreases keys.len(),
    when keys.finite()
{
    if keys.is_empty() {
        0
    } else {
        let k = keys.choose();
        adjacency[k].len() + total_len(adjacency, keys.remove(k))
    }
}

/// The sum over a set of keys can be taken key by key, whichever comes
/// first.
pub proof fn lemma_total_len_remove<TEdge>(adjacency: Map<u32, Seq<TEdge>>, keys: Set<u32>, k: u32)
    requires
        keys.finite(),
        keys.contains(k),
    ensures
        total_len(adjacency, keys) == adjacency[k].len() + total_len(adjacency, keys.remove(k)),
    decreases keys.len(),
{
    let c = keys.choose();
    if c != k {
        lemma_total_len_remove(adjacency, keys.remove(c), k);
        lemma_total_len_remove(adjacency, keys.remove(k), c);
        assert(keys.remove(c).remove(k) =~= keys.remove(k).remove(c));
    }
}

/// However the keys of an adjacency map are listed, the lists they hold have
/// the same number of edges between them.
pub proof fn lemma_edges_along_len<TEdge>(adjacency: Map<u32, Seq<TEdge>>, keys: Seq<u32>)
    requires
        keys.no_duplicates(),
    ensures
        edges_along(adjacency, keys).len() == total_len(adjacency, keys.to_set()),
    decreases keys.len(),
{
    vstd::seq_lib::seq_to_set_is_finite(keys);
    if keys.len() == 0 {
        assert(keys.to_set() =~= Set::<u32>::empty());
    } else {
        let last = keys.last();
        let rest = keys.drop_last();
        assert(rest.to_set() =~= keys.to_set().remove(last)) by {
            assert forall|k: u32|
                keys.to_set().remove(last).contains(k) implies rest.to_set().contains(k) by {
                let i = choose|i: int| 0 <= i < keys.len() && keys[i] == k;
                assert(rest[i] == k);
            }
        }
        lemma_edges_along_len(adjacency, rest);
        assert(keys.to_set().contains(last)) by {
            assert(keys[keys.len() - 1] == last);
        }
        lemma_total_len_remove(adjacency, keys.to_set(), last);
    }
}

/// The weight of the first of `edges` that runs from `from` to `to`, if there
/// is one.
pub open spec fn link_weight<TEdge: Edge>(edges: Seq<TEdge>, from: u32, to: u32) -> Option<Cost>
    decreases edges.len(),
{
    if edges.len() == 0 {
        None
    } else if edges[0].spec_from() == from && edges[0].spec_to() == to {
        Some(edges[0].spec_weight())
    } else {
        link_weight(edges.drop_first(), from, to)
    }
}

impl<TNode: Node, TEdge: Edge> Graph<TNode, TEdge> {
    /// The weight of the connection from `from` to `to`: that of the first
    /// edge to `to` in the adjacency entry of `from`, if there is one.
    pub open spec fn weight_between(&self, from: u32, to: u32) -> Option<Cost> {
        link_weight(self.out_edges(from), from, to)
    }

    /// Returns the weight of the connection from `from` to `to`: that of the
    /// first edge to `to` in the adjacency entry of `from`, if there is one.
    pub fn weight_of(&self, from: u32, to: u32) -> (weight: Option<Cost>)
        ensures
            weight == self.weight_between(from, to),
    {
        match self.edges.get(&from) {
            None => None,
            Some(edges) => {
                let mut i: usize = 0;
                assert(edges@.skip(0) =~= edges@);
                while i < edges.len()
                    invariant
                        i <= edges.len(),
                        self.out_edges(from) == edges@,
                        link_weight(edges@, from, to) == link_weight(
                            edges@.skip(i as int),
                            from,
                            to,
                        ),
                    decreases edges.len() - i,
                {
                    assert(edges@.skip(i as int).drop_first() =~= edges@.skip(i + 1));
                    assert(edges@.skip(i as int)[0] == edges@[i as int]);
                    if edges[i].from() == from && edges[i].to() == to {
                        return Some(edges[i].weight());
                    }
                    i = i + 1;
                }
                None
            },
        }
    }

    /// Whether some node of the graph has the identifier `id`.
    pub open spec fn holds_id(&self, id: u32) -> bool {
        exists|k: u32| self@.nodes.contains_key(k) && #[trigger] self@.nodes[k].spec_id() == id
    }

    /// Returns whether some node of the graph has the identifier `id`.
    pub fn has_node(&self, id: u32) -> (found: bool)
        ensures
            found == self.holds_id(id),
    {
        let nodes: Vec<&TNode> = self.get_nodes();
        let ghost keys: Seq<u32> = choose|keys: Seq<u32>| #[trigger]
            enumerates(keys, self@.nodes) && nodes@ == keys.map_values(|k: u32| &self@.nodes[k]);
        let mut i: usize = 0;
        while i < nodes.len()
            invariant
                i <= nodes.len(),
                nodes@ == keys.map_values(|k: u32| &self@.nodes[k]),
                enumerates(keys, self@.nodes),
                forall|j: int| 0 <= j < i ==> self@.nodes[keys[j]].spec_id() != id,
            decreases nodes.len() - i,
        {
            if nodes[i].id() == id {
                proof {
                    let k = keys[i as int];
                    assert(keys.to_set().contains(k));
                    assert(self@.nodes[k].spec_id() == id);
                }
                return true;
            }
            i = i + 1;
        }
        proof {
            assert forall|k: u32| self@.nodes.contains_key(k) implies self@.nodes[k].spec_id()
                != id by {
                assert(keys.to_set().contains(k));
                let j = choose|j: int| 0 <= j < keys.len() && keys[j] == k;
                assert(self@.nodes[keys[j]].spec_id() != id);
            }
        }
        false
    }

    /// Whether some edge of the graph runs from `from` to `to`.
    pub open spec fn connects(&self, from: u32, to: u32) -> bool {
        exists|k: u32, i: int|
            self@.edges.contains_key(k) && 0 <= i < self@.edges[k].len()
                && #[trigger] self@.edges[k][i].spec_from() == from && self@.edges[k][i].spec_to()
                == to
    }

    /// Returns whether some edge of the graph runs from `from` to `to`.
    pub fn has_edge(&self, from: u32, to: u32) -> (found: bool)
        ensures
            found == self.connects(from, to),
    {
        let ghost pairs = self.edges.iter().remaining();
        for pair in it: self.edges.iter()
            invariant
                it.seq() == pairs,
                forall|j: int|
                    0 <= j < pairs.len() ==> self.edges@.contains_key(*pairs[j].0)
                        && self.edges@[*pairs[j].0] == *pairs[j].1,
                forall|j: int, i: int|
                    0 <= j < it.index() && 0 <= i < pairs[j].1@.len() ==> !(
                    #[trigger] pairs[j].1@[i].spec_from() == from && pairs[j].1@[i].spec_to()
                        == to),
        {
            let list: &Vec<TEdge> = pair.1;
            let mut i: usize = 0;
            while i < list.len()
                invariant
                    i <= list.len(),
                    self.edges@.contains_key(*pair.0),
                    self.edges@[*pair.0] == *list,
                    forall|h: int|
                        0 <= h < i ==> !(#[trigger] list@[h].spec_from() == from
                            && list@[h].spec_to() == to),
                decreases list.len() - i,
            {
                if list[i].from() == from && list[i].to() == to {
                    proof {
                        let k = *pair.0;
                        assert(self@.edges.contains_key(k));
                        assert(self@.edges[k][i as int].spec_from() == from);
                    }
                    return true;
                }
                i = i + 1;
            }
        }
        proof {
            assert forall|k: u32, i: int|
                self@.edges.contains_key(k) && 0 <= i < self@.edges[k].len() implies !(
            #[trigger] self@.edges[k][i].spec_from() == from && self@.edges[k][i].spec_to()
                == to) by {
                assert(self.edges@.contains_key(k));
                let p = (&k, &self.edges@[k]);
                assert(pairs.contains(p));
                let j = choose|j: int| 0 <= j < pairs.len() && pairs[j] == p;
                assert(pairs[j].1@[i] == self@.edges[k][i]);
            }
        }
        false
    }

    /// The number of edges in the graph.
    pub open spec fn edge_count(&self) -> nat {
        total_len(self@.edges, self@.edges.dom())
    }

    /// Returns the number of edges in the graph.
    pub fn count_edges(&self) -> (count: usize)
        ensures
            count == self.edge_count(),
    {
        let edges: Vec<&TEdge> = self.get_edges();
        proof {
            let keys: Seq<u32> = choose|keys: Seq<u32>| #[trigger]
                enumerates(keys, self@.edges) && edges@ == edges_along(
                    self@.edges,
                    keys,
                ).map_values(|e: TEdge| &e);
            lemma_edges_along_len(self@.edges, keys);
        }
        edges.len()
    }
}

} // verus!
