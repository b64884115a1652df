use std::marker::PhantomData;
use vstd::prelude::*;

use crate::graph::edge::Edge;
use crate::graph::graph::Graph;
use crate::graph::node::Node;
use crate::policy::Policy;
use crate::strategy::sampler::Sampler;

verus! {

/// Builds a graph from three interchangeable parts: a sampler that yields
/// candidate nodes and edges, a policy that admits nodes, and a policy that
/// admits edges.
pub struct GraphBuilder<NodeAuth, EdgeAuth, Samp, Ctx> {
    auth_edge_policy: EdgeAuth,
    auth_node_policy: NodeAuth,
    sample_strategy: Samp,
    _ctx: PhantomData<Ctx>,
}

/// Whether putting `node` to `policy` takes the graph from `g0` to `g1`: the
/// node is added where it complies with the graph so far.
pub open spec fn node_admitted<P, N, E>(
    policy: P,
    node: N,
    g0: Graph<N, E>,
    g1: Graph<N, E>,
) -> bool where P: Policy<N, Graph<N, E>>, N: Node, E: Edge {
    if policy.complies(&node, &g0) {
        g1@ == g0@.with_node(node.spec_id(), node)
    } else {
        g1 == g0
    }
}

/// Whether putting the first `n` of `nodes` to `policy`, in order, takes the
/// graph from `g0` to `g1`.
pub open spec fn nodes_admitted<P, N, E>(
    policy: P,
    nodes: Seq<N>,
    n: nat,
    g0: Graph<N, E>,
    g1: Graph<N, E>,
) -> bool where P: Policy<N, Graph<N, E>>, N: Node, E: Edge
    decreases n,
{
    if n == 0 {
        g1 == g0
    } else {
        exists|g: Graph<N, E>|
            nodes_admitted(policy, nodes, (n - 1) as nat, g0, g) && #[trigger] node_admitted(
                policy,
                nodes[n - 1],
                g,
                g1,
            )
    }
}

/// Whether putting `edge` to `policy` takes the graph from `g0` to `g1`: the
/// edge is added where it complies with the graph so far.
pub open spec fn edge_admitted<P, N, E>(
    policy: P,
    edge: E,
    g0: Graph<N, E>,
    g1: Graph<N, E>,
) -> bool where P: Policy<E, Graph<N, E>>, N: Node, E: Edge {
    if policy.complies(&edge, &g0) {
        g1@ == g0@.with_edge(edge.spec_from(), edge)
    } else {
        g1 == g0
    }
}

/// Whether putting the first `n` of `edges` to `policy`, in order, takes the
/// graph from `g0` to `g1`.
pub open spec fn edges_admitted<P, N, E>(
    policy: P,
    edges: Seq<E>,
    n: nat,
    g0: Graph<N, E>,
    g1: Graph<N, E>,
) -> bool where P: Policy<E, Graph<N, E>>, N: Node, E: Edge
    decreases n,
{
    if n == 0 {
        g1 == g0
    } else {
        exists|g: Graph<N, E>|
            edges_admitted(policy, edges, (n - 1) as nat, g0, g) && #[trigger] edge_admitted(
                policy,
                edges[n - 1],
                g,
                g1,
            )
    }
}

/// Admitting nodes leaves the edges of the graph as they are.
pub proof fn lemma_nodes_admitted_keep_edges<P, N, E>(
    policy: P,
    nodes: Seq<N>,
    n: nat,
    g0: Graph<N, E>,
    g1: Graph<N, E>,
) where P: Policy<N, Graph<N, E>>, N: Node, E: Edge
    requires
        nodes_admitted(policy, nodes, n, g0, g1),
    ensures
        g1@.edges == g0@.edges,
    decreases n,
{
    if n > 0 {
        let g = choose|g: Graph<N, E>|
            nodes_admitted(policy, nodes, (n - 1) as nat, g0, g) && #[trigger] node_admitted(
                policy,
                nodes[n - 1],
                g,
                g1,
            );
        lemma_nodes_admitted_keep_edges(policy, nodes, (n - 1) as nat, g0, g);
    }
}

/// Admitting edges leaves the nodes of the graph as they are: every edge is
/// put to its policy against the same set of nodes.
pub proof fn lemma_edges_admitted_keep_nodes<P, N, E>(
    policy: P,
    edges: Seq<E>,
    n: nat,
    g0: Graph<N, E>,
    g1: Graph<N, E>,
) where P: Policy<E, Graph<N, E>>, N: Node, E: Edge
    requires
        edges_admitted(policy, edges, n, g0, g1),
    ensures
        g1@.nodes == g0@.nodes,
    decreases n,
{
    if n > 0 {
        let g = choose|g: Graph<N, E>|
            edges_admitted(policy, edges, (n - 1) as nat, g0, g) && #[trigger] edge_admitted(
                policy,
                edges[n - 1],
                g,
                g1,
            );
        lemma_edges_admitted_keep_nodes(policy, edges, (n - 1) as nat, g0, g);
    }
}

impl<NodeAuth, EdgeAuth, Samp, Ctx> GraphBuilder<NodeAuth, EdgeAuth, Samp, Ctx> where
    NodeAuth: Policy<Samp::Node, Graph<Samp::Node, Samp::Edge>>,
    EdgeAuth: Policy<Samp::Edge, Graph<Samp::Node, Samp::Edge>>,
    Samp: Sampler<Ctx>,
 {
    /// The policy that admits edges.
    pub closed spec fn edge_policy(&self) -> EdgeAuth {
        self.auth_edge_policy
    }

    /// The policy that admits nodes.
    pub closed spec fn node_policy(&self) -> NodeAuth {
        self.auth_node_policy
    }

    /// The sampler, in its present state.
    pub closed spec fn sampler(&self) -> Samp {
        self.sample_strategy
    }

    /// Creates a builder from the policy that admits edges, the policy that
    /// admits nodes, and the sampler.
    pub fn new(
        auth_edge_policy: EdgeAuth,
        auth_node_policy: NodeAuth,
        sample_strategy: Samp,
    ) -> (builder: Self)
        ensures
            builder.edge_policy() == auth_edge_policy,
            builder.node_policy() == auth_node_policy,
            builder.sampler() == sample_strategy,
    {
        GraphBuilder { auth_node_policy, auth_edge_policy, sample_strategy, _ctx: PhantomData }
    }

    /// Whether the batch that `sampler` yields next takes the graph from `g0`
    /// to `g1` and the buffer of edges from `b0` to `b1`: its nodes are put to
    /// the node policy in order, its edges are set aside.
    pub open spec fn batch_admitted(
        &self,
        context: &Ctx,
        sampler: Samp,
        g0: Graph<Samp::Node, Samp::Edge>,
        b0: Seq<Samp::Edge>,
        g1: Graph<Samp::Node, Samp::Edge>,
        b1: Seq<Samp::Edge>,
    ) -> bool {
        exists|nodes: Seq<Samp::Node>, edges: Seq<Samp::Edge>|
            {
                &&& #[trigger] sampler.yields(context, Some((nodes, edges)))
                &&& nodes_admitted(self.node_policy(), nodes, nodes.len(), g0, g1)
                &&& b1 == b0 + edges
            }
    }

    /// Whether `n` batches take the sampler from its state in this builder
    /// to `sampler`, the graph from empty to `graph`, and the buffer of
    /// edges from empty to `buffer`: the nodes of each batch are put to the
    /// node policy in order, its edges are set aside.
    pub open spec fn sampled(
        &self,
        context: &Ctx,
        n: nat,
        sampler: Samp,
        graph: Graph<Samp::Node, Samp::Edge>,
        buffer: Seq<Samp::Edge>,
    ) -> bool
        decreases n,
    {
        if n == 0 {
            sampler == self.sampler() && graph.is_empty() && buffer == Seq::<Samp::Edge>::empty()
        } else {
            exists|s: Samp, g: Graph<Samp::Node, Samp::Edge>, b: Seq<Samp::Edge>|
                {
                    &&& self.sampled(context, (n - 1) as nat, s, g, b)
                    &&& s.advanced(context, &sampler)
                    &&& #[trigger] self.batch_admitted(context, s, g, b, graph, buffer)
                }
        }
    }

    /// Whether a build over `context` gives `graph` and leaves the builder as
    /// `after`: batches are sampled until the sampler is exhausted, and the
    /// edges that were set aside are then put to the edge policy, in the order
    /// they were sampled, against the graph that holds every admitted node.
    pub open spec fn built(
        &self,
        context: &Ctx,
        graph: Graph<Samp::Node, Samp::Edge>,
        after: &Self,
    ) -> bool {
        &&& after.node_policy() == self.node_policy()
        &&& after.edge_policy() == self.edge_policy()
        &&& exists|n: nat, s: Samp, g: Graph<Samp::Node, Samp::Edge>, b: Seq<Samp::Edge>|
            {
                &&& #[trigger] self.sampled(context, n, s, g, b)
                &&& s.yields(context, None)
                &&& s.advanced(context, &after.sampler())
                &&& edges_admitted(self.edge_policy(), b, b.len(), g, graph)
            }
    }

    /// Whether the sampler, as it stands in this builder, has no batch to
    /// give over `context`.
    pub open spec fn exhausted(&self, context: &Ctx) -> bool {
        forall|nodes: Seq<Samp::Node>, edges: Seq<Samp::Edge>|
            !#[trigger] self.sampler().yields(context, Some((nodes, edges)))
    }

    /// Where any batch was sampled, the sampler of this builder had one to
    /// give.
    pub proof fn lemma_sampled_from_start(
        &self,
        context: &Ctx,
        n: nat,
        sampler: Samp,
        graph: Graph<Samp::Node, Samp::Edge>,
        buffer: Seq<Samp::Edge>,
    )
        requires
            n > 0,
            self.sampled(context, n, sampler, graph, buffer),
        ensures
            !self.exhausted(context),
        decreases n,
    {
        let (s, g, b) = choose|s: Samp, g: Graph<Samp::Node, Samp::Edge>, b: Seq<Samp::Edge>|
            {
                &&& self.sampled(context, (n - 1) as nat, s, g, b)
                &&& s.advanced(context, &sampler)
                &&& #[trigger] self.batch_admitted(context, s, g, b, graph, buffer)
            };
        if n == 1 {
            let (nodes, edges) = choose|nodes: Seq<Samp::Node>, edges: Seq<Samp::Edge>|
                {
                    &&& #[trigger] s.yields(context, Some((nodes, edges)))
                    &&& nodes_admitted(self.node_policy(), nodes, nodes.len(), g, graph)
                    &&& buffer == b + edges
                };
            assert(self.sampler().yields(context, Some((nodes, edges))));
        } else {
            self.lemma_sampled_from_start(context, (n - 1) as nat, s, g, b);
        }
    }

    /// While batches are sampled the graph holds no edge: the node policy
    /// never sees one.
    pub proof fn lemma_sampled_without_edges(
        &self,
        context: &Ctx,
        n: nat,
        sampler: Samp,
        graph: Graph<Samp::Node, Samp::Edge>,
        buffer: Seq<Samp::Edge>,
    )
        requires
            self.sampled(context, n, sampler, graph, buffer),
        ensures
            graph@.edges == Map::<u32, Seq<Samp::Edge>>::empty(),
        decreases n,
    {
        if n > 0 {
            let (s, g, b) = choose|s: Samp, g: Graph<Samp::Node, Samp::Edge>, b: Seq<Samp::Edge>|
                {
                    &&& self.sampled(context, (n - 1) as nat, s, g, b)
                    &&& s.advanced(context, &sampler)
                    &&& #[trigger] self.batch_admitted(context, s, g, b, graph, buffer)
                };
            self.lemma_sampled_without_edges(context, (n - 1) as nat, s, g, b);
            let (nodes, edges) = choose|nodes: Seq<Samp::Node>, edges: Seq<Samp::Edge>|
                {
                    &&& #[trigger] s.yields(context, Some((nodes, edges)))
                    &&& nodes_admitted(self.node_policy(), nodes, nodes.len(), g, graph)
                    &&& buffer == b + edges
                };
            lemma_nodes_admitted_keep_edges(self.node_policy(), nodes, nodes.len(), g, graph);
        }
    }

    /// A sampler that is exhausted from the start yields an empty graph,
    /// whatever the policies are.
    pub proof fn lemma_exhausted_sampler_builds_empty(
        &self,
        context: &Ctx,
        graph: Graph<Samp::Node, Samp::Edge>,
        after: &Self,
    )
        requires
            self.exhausted(context),
            self.built(context, graph, after),
        ensures
            graph.is_empty(),
    {
        let (n, s, g, b) = choose|
            n: nat,
            s: Samp,
            g: Graph<Samp::Node, Samp::Edge>,
            b: Seq<Samp::Edge>,
        |
            {
                &&& #[trigger] self.sampled(context, n, s, g, b)
                &&& s.yields(context, None)
                &&& s.advanced(context, &after.sampler())
                &&& edges_admitted(self.edge_policy(), b, b.len(), g, graph)
            };
        if n > 0 {
            self.lemma_sampled_from_start(context, n, s, g, b);
        }
    }

    /// Builds a graph from `context`.
    ///
    /// Batches are sampled until the sampler is exhausted. The nodes of each
    /// batch are put to the node policy against the graph as it stands, so
    /// that a policy that depends on what came before sees it. The edges of
    /// all batches are set aside and put to the edge policy only when every
    /// node is in: the edge policy sees the final set of nodes, the node
    /// policy never sees an edge.
    pub fn build(&mut self, context: &Ctx) -> (graph: Graph<Samp::Node, Samp::Edge>)
        requires
            old(self).sampler().reads(context),
        ensures
            old(self).built(context, graph, final(self)),
    {
        let mut graph: Graph<Samp::Node, Samp::Edge> = Graph::new();
        let mut edges_buffer: Vec<Samp::Edge> = Vec::new();
        let ghost mut n: nat = 0;
        let mut sampling: bool = true;
        while sampling
            invariant
                self.node_policy() == old(self).node_policy(),
                self.edge_policy() == old(self).edge_policy(),
                self.sampler().reads(context),
                sampling ==> old(self).sampled(context, n, self.sampler(), graph, edges_buffer@),
                !sampling ==> exists|s: Samp|
                    {
                        &&& #[trigger] old(self).sampled(context, n, s, graph, edges_buffer@)
                        &&& s.yields(context, None)
                        &&& s.advanced(context, &self.sampler())
                    },
            decreases
                    if sampling {
                        1nat
                    } else {
                        0nat
                    },
                    self.sampler().remaining(context),
        {
            let ghost s0 = self.sampler();
            let ghost g0 = graph;
            let ghost b0 = edges_buffer@;
            match self.sample_strategy.next(context) {
                None => {
                    sampling = false;
                },
                Some((nodes, mut edges)) => {
                    let ghost batch = nodes@;
                    let ghost set_aside = edges@;
                    let ghost s1 = self.sampler();
                    for node in it: nodes
                        invariant
                            it.seq() == batch,
                            self.sampler() == s1,
                            self.node_policy() == old(self).node_policy(),
                            self.edge_policy() == old(self).edge_policy(),
                            nodes_admitted(
                                old(self).node_policy(),
                                batch,
                                it.index() as nat,
                                g0,
                                graph,
                            ),
                    {
                        let ghost g = graph;
                        if self.auth_node_policy.is_compliant(&node, &graph) {
                            graph.add_node(node);
                        }
                        proof {
                            let k = (it.index() + 1) as nat;
                            assert(node_admitted(old(self).node_policy(), batch[k - 1], g, graph));
                        }
                    }
                    edges_buffer.append(&mut edges);
                    proof {
                        n = n + 1;
                        assert(s0.yields(context, Some((batch, set_aside))));
                        assert(old(self).batch_admitted(
                            context,
                            s0,
                            g0,
                            b0,
                            graph,
                            edges_buffer@,
                        ));
                    }
                },
            }
        }
        let ghost g0 = graph;
        let ghost buffer = edges_buffer@;
        for edge in it: edges_buffer
            invariant
                it.seq() == buffer,
                self.edge_policy() == old(self).edge_policy(),
                edges_admitted(old(self).edge_policy(), buffer, it.index() as nat, g0, graph),
        {
            let ghost g = graph;
            if self.auth_edge_policy.is_compliant(&edge, &graph) {
                graph.add_edge(edge);
            }
            proof {
                let k = (it.index() + 1) as nat;
                assert(edge_admitted(old(self).edge_policy(), buffer[k - 1], g, graph));
            }
        }
        graph
    }
}

} // verus!
