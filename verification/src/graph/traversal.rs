use vstd::prelude::*;

use crate::frontier::Frontier;
use crate::graph::edge::Edge;
use crate::graph::graph::Graph;
use crate::graph::node::Node;
use crate::strategy::visitor::Visitor;

verus! {

broadcast use vstd::std_specs::hash::group_hash_axioms;

impl<TNode: Node, TEdge: Edge> Graph<TNode, TEdge> {
    /// Whether handling one outgoing edge takes the frontier and the visitor
    /// from `(f0, v0)` to `(f1, v1)`: the visitor decides on the connection,
    /// and where it agrees, the destination is pushed at the priority that the
    /// visitor then gives.
    pub open spec fn edge_explored<F: Frontier, V: Visitor<Self>>(
        &self,
        edge: TEdge,
        f0: F,
        v0: V,
        f1: F,
        v1: V,
    ) -> bool {
        let from = edge.spec_from();
        let to = edge.spec_to();
        &&& v0.explored(from, to, self, &v1)
        &&& if v0.explores(from, to, self) {
            f0.pushed(to, Some(v1.spec_exploration_cost(from, to, self)), &f1)
        } else {
            f1 == f0
        }
    }

    /// Whether handling the first `n` of `edges`, in order, takes the frontier
    /// and the visitor from `(f0, v0)` to `(f1, v1)`.
    pub open spec fn edges_explored<F: Frontier, V: Visitor<Self>>(
        &self,
        edges: Seq<TEdge>,
        n: nat,
        f0: F,
        v0: V,
        f1: F,
        v1: V,
    ) -> bool
        decreases n,
    {
        if n == 0 {
            f1 == f0 && v1 == v0
        } else {
            exists|f: F, v: V|
                #![trigger self.edge_explored(edges[n - 1], f, v, f1, v1)]
                self.edges_explored(edges, (n - 1) as nat, f0, v0, f, v) && self.edge_explored(
                    edges[n - 1],
                    f,
                    v,
                    f1,
                    v1,
                )
        }
    }

    /// Whether what follows the pop of `id` takes the frontier and the
    /// visitor from `(fp, v0)` to `(f1, v1)`, and whether the traversal ends
    /// with it (`stop`).
    ///
    /// Where the graph has no adjacency entry for `id`, the traversal ends
    /// there, before any visit. Otherwise every outgoing edge is handled in
    /// order, the node is visited once, and the visitor says whether to stop.
    pub open spec fn settled<F: Frontier, V: Visitor<Self>>(
        &self,
        id: u32,
        fp: F,
        v0: V,
        f1: F,
        v1: V,
        stop: bool,
    ) -> bool {
        if self@.edges.contains_key(id) {
            let edges = self@.edges[id];
            exists|ve: V|
                {
                    &&& self.edges_explored(edges, edges.len(), fp, v0, f1, ve)
                    &&& #[trigger] ve.visited(id, self, &v1)
                    &&& stop == v1.stops(id, self)
                }
        } else {
            stop && f1 == fp && v1 == v0
        }
    }

    /// Whether one round of the traversal takes the frontier and the visitor
    /// from `(f0, v0)` to `(f1, v1)`, and whether it is the last (`stop`): the
    /// next identifier is popped and settled.
    pub open spec fn round<F: Frontier, V: Visitor<Self>>(
        &self,
        f0: F,
        v0: V,
        f1: F,
        v1: V,
        stop: bool,
    ) -> bool {
        &&& f0.next() is Some
        &&& exists|fp: F| #[trigger]
            f0.popped(&fp) && self.settled(f0.next()->0, fp, v0, f1, v1, stop)
    }

    /// Whether `n` rounds, none of them the last, take the frontier and the
    /// visitor from `(f0, v0)` to `(f1, v1)`.
    pub open spec fn rounds<F: Frontier, V: Visitor<Self>>(
        &self,
        n: nat,
        f0: F,
        v0: V,
        f1: F,
        v1: V,
    ) -> bool
        decreases n,
    {
        if n == 0 {
            f1 == f0 && v1 == v0
        } else {
            exists|f: F, v: V|
                #![trigger self.round(f, v, f1, v1, false)]
                self.rounds((n - 1) as nat, f0, v0, f, v) && self.round(f, v, f1, v1, false)
        }
    }

    /// Whether the rounds of a traversal take the frontier and the visitor
    /// from `(f0, v0)` to `(f1, v1)` and end there: after some rounds, either
    /// nothing is pending, or one more round is the last.
    pub open spec fn explored_from<F: Frontier, V: Visitor<Self>>(
        &self,
        f0: F,
        v0: V,
        f1: F,
        v1: V,
    ) -> bool {
        exists|n: nat, f: F, v: V|
            #![trigger self.rounds(n, f0, v0, f, v)]
            {
                &&& self.rounds(n, f0, v0, f, v)
                &&& if f.pending() == 0 {
                    f1 == f && v1 == v
                } else {
                    self.round(f, v, f1, v1, true)
                }
            }
    }

    /// Whether a traversal from `start` takes the frontier and the visitor
    /// from `(f0, v0)` to `(f1, v1)`: `start` is pushed at the visitor's
    /// initial priority, then the rounds run to their end.
    pub open spec fn traversed<F: Frontier, V: Visitor<Self>>(
        &self,
        start: u32,
        f0: F,
        v0: V,
        f1: F,
        v1: V,
    ) -> bool {
        exists|fs: F|
            #![trigger self.explored_from(fs, v0, f1, v1)]
            f0.pushed(start, Some(v0.spec_init_cost(start, self)), &fs) && self.explored_from(
                fs,
                v0,
                f1,
                v1,
            )
    }

    /// Where any round was run, a first round was run that was not the
    /// last.
    pub proof fn lemma_rounds_begin<F: Frontier, V: Visitor<Self>>(
        &self,
        n: nat,
        f0: F,
        v0: V,
        f1: F,
        v1: V,
    )
        requires
            n > 0,
            self.rounds(n, f0, v0, f1, v1),
        ensures
            exists|f: F, v: V| #[trigger] self.round(f0, v0, f, v, false),
        decreases n,
    {
        let (f, v) = choose|f: F, v: V|
            #![trigger self.round(f, v, f1, v1, false)]
            self.rounds((n - 1) as nat, f0, v0, f, v) && self.round(f, v, f1, v1, false);
        if n == 1 {
            assert(self.round(f0, v0, f1, v1, false));
        } else {
            self.lemma_rounds_begin((n - 1) as nat, f0, v0, f, v);
        }
    }

    /// A start node without adjacency entry ends the traversal after zero
    /// visits: where the frontier hands out the start node first, the
    /// visitor is left as it was.
    pub proof fn lemma_start_without_entry<F: Frontier, V: Visitor<Self>>(
        &self,
        start: u32,
        f0: F,
        v0: V,
        f1: F,
        v1: V,
    )
        requires
            self.traversed(start, f0, v0, f1, v1),
            !self@.edges.contains_key(start),
            forall|fs: F| #[trigger]
                f0.pushed(start, Some(v0.spec_init_cost(start, self)), &fs) ==> fs.pending() > 0
                    && fs.next() == Some(start),
        ensures
            v1 == v0,
    {
        let fs = choose|fs: F|
            #![trigger self.explored_from(fs, v0, f1, v1)]
            f0.pushed(start, Some(v0.spec_init_cost(start, self)), &fs) && self.explored_from(
                fs,
                v0,
                f1,
                v1,
            );
        let (n, f, v) = choose|n: nat, f: F, v: V|
            #![trigger self.rounds(n, fs, v0, f, v)]
            {
                &&& self.rounds(n, fs, v0, f, v)
                &&& if f.pending() == 0 {
                    f1 == f && v1 == v
                } else {
                    self.round(f, v, f1, v1, true)
                }
            };
        if n > 0 {
            self.lemma_rounds_begin(n, fs, v0, f, v);
        }
    }

    /// Explores the graph from `start`: the frontier fixes the order, the
    /// visitor decides what is explored, what a visit records and when to
    /// stop.
    ///
    /// `start` is pushed at the visitor's initial priority. Then, while
    /// anything is pending, the next identifier is popped; each of its
    /// outgoing edges is put to the visitor and, where it agrees, the
    /// destination is pushed; the node is visited, exactly once per pop; and
    /// the visitor may stop the traversal. A popped identifier without
    /// adjacency entry ends the traversal before it is visited.
    ///
    /// The caller bounds the traversal: either the frontier takes each
    /// identifier once only, or the visitor cannot agree to exploration for
    /// ever.
    pub fn traverse<F: Frontier, V: Visitor<Self>>(
        &self,
        start: u32,
        frontier: &mut F,
        visitor: &mut V,
    )
        requires
            F::deduplicates() || V::converges(),
        ensures
            self.traversed(start, *old(frontier), *old(visitor), *final(frontier), *final(visitor)),
    {
        let cost = visitor.init_cost(start, self);
        frontier.push(start, Some(cost));
        let ghost fs = *frontier;
        let ghost vs = *visitor;
        let ghost mut n: nat = 0;
        let mut running: bool = true;
        while running
            invariant
                F::deduplicates() || V::converges(),
                running ==> self.rounds(n, fs, vs, *frontier, *visitor),
                !running ==> self.explored_from(fs, vs, *frontier, *visitor),
            decreases
                    frontier.room() + visitor.potential(),
                    frontier.pending(),
                    if running {
                        1nat
                    } else {
                        0nat
                    },
        {
            let ghost f0 = *frontier;
            let ghost v0 = *visitor;
            if frontier.is_empty() {
                running = false;
            } else {
                match frontier.pop() {
                    None => {
                        running = false;
                    },
                    Some(current_id) => {
                        let ghost fp = *frontier;
                        match self.edges.get(&current_id) {
                            None => {
                                running = false;
                                assert(self.round(f0, v0, *frontier, *visitor, true)) by {
                                    assert(f0.popped(&fp));
                                    assert(self.settled(
                                        current_id,
                                        fp,
                                        v0,
                                        *frontier,
                                        *visitor,
                                        true,
                                    ));
                                }
                            },
                            Some(edges) => {
                                let mut i: usize = 0;
                                while i < edges.len()
                                    invariant
                                        F::deduplicates() || V::converges(),
                                        i <= edges.len(),
                                        self.edges_explored(
                                            edges@,
                                            i as nat,
                                            fp,
                                            v0,
                                            *frontier,
                                            *visitor,
                                        ),
                                        frontier.room() + visitor.potential() <= fp.room()
                                            + v0.potential(),
                                        frontier.room() + visitor.potential() == fp.room()
                                            + v0.potential() ==> frontier.pending()
                                            == fp.pending(),
                                    decreases edges.len() - i,
                                {
                                    let ghost fi = *frontier;
                                    let ghost vi = *visitor;
                                    let from: u32 = edges[i].from();
                                    let to: u32 = edges[i].to();
                                    if visitor.should_explore(from, to, self) {
                                        let cost = visitor.exploration_cost(from, to, self);
                                        frontier.push(to, Some(cost));
                                    }
                                    i = i + 1;
                                    assert(self.edge_explored(
                                        edges@[i - 1],
                                        fi,
                                        vi,
                                        *frontier,
                                        *visitor,
                                    ));
                                }
                                let ghost ve = *visitor;
                                visitor.visit(current_id, self);
                                let stop: bool = visitor.should_stop(current_id, self);
                                assert(self.round(f0, v0, *frontier, *visitor, stop)) by {
                                    assert(f0.popped(&fp));
                                    assert(ve.visited(current_id, self, visitor));
                                    assert(edges@.take(i as int) =~= edges@);
                                    assert(self.settled(
                                        current_id,
                                        fp,
                                        v0,
                                        *frontier,
                                        *visitor,
                                        stop,
                                    ));
                                }
                                if stop {
                                    running = false;
                                } else {
                                    proof {
                                        n = n + 1;
                                    }
                                }
                            },
                        }
                    },
                }
            }
        }
    }
}

} // verus!
