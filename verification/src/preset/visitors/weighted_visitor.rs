use std::collections::HashMap;
use vstd::prelude::*;

use crate::graph::{Cost, Edge, Graph, Node};
use crate::policy::Policy;
use crate::preset::visitors::count_visited::CountVisited;
use crate::preset::visitors::track_parent::TrackParent;
use crate::strategy::visitor::Visitor;

verus! {

broadcast use vstd::std_specs::hash::group_hash_axioms;

/// The sum of two costs, held at the least or the greatest cost where it
/// would pass it.
pub open spec fn cost_sum(a: Cost, b: Cost) -> Cost {
    if a + b > i64::MAX {
        i64::MAX
    } else if a + b < i64::MIN {
        i64::MIN
    } else {
        (a + b) as i64
    }
}

/// Adds two costs; the sum is held at the least or the greatest cost where it
/// would pass it.
pub fn add_costs(a: Cost, b: Cost) -> (sum: Cost)
    ensures
        sum == cost_sum(a, b),
{
    if b > 0 && a > i64::MAX - b {
        i64::MAX
    } else if b < 0 && a < i64::MIN - b {
        i64::MIN
    } else {
        a + b
    }
}

/// What the distance on record for `id` can still fall by; more than any
/// distance can where none is on record.
pub open spec fn slack_of(distances: Map<u32, Cost>, id: u32) -> nat {
    if distances.contains_key(id) {
        (distances[id] - i64::MIN) as nat
    } else {
        0x1_0000_0000_0000_0000
    }
}

/// The slack of the identifiers below `n`, summed.
pub open spec fn slack_below(distances: Map<u32, Cost>, n: nat) -> nat
    decreases n,
{
    if n == 0 {
        0
    } else {
        slack_below(distances, (n - 1) as nat) + slack_of(distances, (n - 1) as u32)
    }
}

/// Where two records differ at `id` only, their summed slack differs by the
/// slack of `id`.
pub proof fn lemma_slack_below_differs(d0: Map<u32, Cost>, d1: Map<u32, Cost>, id: u32, n: nat)
    requires
        n <= 0x1_0000_0000,
        forall|k: u32| k != id ==> slack_of(d0, k) == slack_of(d1, k),
    ensures
        slack_below(d1, n) + (if id < n {
            slack_of(d0, id)
        } else {
            0
        }) == slack_below(d0, n) + (if id < n {
            slack_of(d1, id)
        } else {
            0
        }),
    decreases n,
{
    if n > 0 {
        lemma_slack_below_differs(d0, d1, id, (n - 1) as nat);
    }
}

/// A visitor for weighted search: it keeps the least distance found so far to
/// every node it has reached, and lets a connection be explored where it
/// reaches a node for the first time or at a strictly smaller distance. With a
/// frontier that hands out the least cost first, this is Dijkstra's
/// algorithm.
///
/// A policy, put to the node just visited with the visitor as context, decides
/// when the traversal stops.
#[derive(Debug)]
pub struct WeightedVisitor<P> {
    /// The least distance found so far to each node that was reached.
    pub distances: HashMap<u32, Cost>,
    /// The node from which each node was reached at that distance.
    pub parents: HashMap<u32, u32>,
    /// The policy that ends the traversal.
    pub terminate: P,
}

impl<P: Default> Default for WeightedVisitor<P> {
    /// Creates a visitor without records.
    fn default() -> (visitor: Self)
        ensures
            visitor.distances@ == Map::<u32, Cost>::empty(),
            visitor.parents@ == Map::<u32, u32>::empty(),
    {
        WeightedVisitor::<P> {
            distances: HashMap::new(),
            parents: HashMap::new(),
            terminate: P::default(),
        }
    }
}

impl<P> WeightedVisitor<P> where P: Policy<u32, Self> {
    /// Creates a visitor without records that stops as `terminate` says.
    pub fn new(terminate: P) -> (visitor: Self)
        ensures
            visitor.distances@ == Map::<u32, Cost>::empty(),
            visitor.parents@ == Map::<u32, u32>::empty(),
            visitor.terminate == terminate,
    {
        WeightedVisitor::<P> { distances: HashMap::new(), parents: HashMap::new(), terminate }
    }
}

impl<P> WeightedVisitor<P> {
    /// The distance on record for `id`; zero where none is.
    pub open spec fn distance_to(&self, id: u32) -> Cost {
        if self.distances@.contains_key(id) {
            self.distances@[id]
        } else {
            0
        }
    }

    /// The distance at which `to` is reached over the connection from `from`:
    /// the distance to `from` plus the weight of the connection, zero for a
    /// connection that the graph does not hold.
    pub open spec fn candidate<TNode: Node, TEdge: Edge>(
        &self,
        from: u32,
        to: u32,
        context: &Graph<TNode, TEdge>,
    ) -> Cost {
        cost_sum(
            self.distance_to(from),
            match context.weight_between(from, to) {
                Some(w) => w,
                None => 0,
            },
        )
    }

    /// Whether `distance` improves on what is on record for `to`: nothing is
    /// on record, or a strictly greater distance.
    pub open spec fn improves(&self, to: u32, distance: Cost) -> bool {
        !self.distances@.contains_key(to) || distance < self.distances@[to]
    }

    /// What the distances on record can still fall by, summed over all
    /// identifiers.
    pub open spec fn slack(&self) -> nat {
        slack_below(self.distances@, 0x1_0000_0000)
    }

    /// Puts `distance` on record for `to`, reached from `from`.
    fn relax(&mut self, from: u32, to: u32, distance: Cost)
        requires
            old(self).improves(to, distance),
        ensures
            final(self).distances@ == old(self).distances@.insert(to, distance),
            final(self).parents@ == old(self).parents@.insert(to, from),
            final(self).terminate == old(self).terminate,
            final(self).slack() < old(self).slack(),
    {
        self.distances.insert(to, distance);
        self.parents.insert(to, from);
        proof {
            lemma_slack_below_differs(
                old(self).distances@,
                final(self).distances@,
                to,
                0x1_0000_0000,
            );
        }
    }
}

/// A distance on record is replaced only by a strictly smaller one: after the
/// visitor has decided on a connection to `to`, the distance on record for
/// `to` is the lesser of what was on record, if anything, and the distance
/// over that connection; every other distance is as it was.
pub proof fn lemma_relaxation_keeps_least<TNode, TEdge, P>(
    before: WeightedVisitor<P>,
    from: u32,
    to: u32,
    context: &Graph<TNode, TEdge>,
    after: WeightedVisitor<P>,
) where TNode: Node, TEdge: Edge, P: Policy<u32, WeightedVisitor<P>>
    requires
        before.explored(from, to, context, &after),
    ensures
        after.distances@.contains_key(to),
        after.distances@[to] <= before.candidate(from, to, context),
        before.distances@.contains_key(to) ==> after.distances@[to] <= before.distances@[to],
        after.distances@[to] == before.candidate(from, to, context) || (
        before.distances@.contains_key(to) && after.distances@[to] == before.distances@[to]),
        forall|id: u32|
            id != to ==> after.distances@.contains_key(id) == before.distances@.contains_key(id)
                && after.distances@[id] == before.distances@[id],
{
}

impl<P> CountVisited for WeightedVisitor<P> {
    open spec fn spec_visited_count(&self) -> usize {
        self.distances@.len() as usize
    }

    fn visited_count(&self) -> (count: usize) {
        self.distances.len()
    }
}

impl<P> TrackParent for WeightedVisitor<P> {
    open spec fn spec_parent(&self, node_id: u32) -> Option<u32> {
        if self.parents@.contains_key(node_id) {
            Some(self.parents@[node_id])
        } else {
            None
        }
    }

    fn get_parent(&self, node_id: u32) -> (parent: Option<u32>) {
        match self.parents.get(&node_id) {
            Some(parent) => Some(*parent),
            None => None,
        }
    }
}

impl<TNode, TEdge, P> Visitor<Graph<TNode, TEdge>> for WeightedVisitor<P> where
    TNode: Node,
    TEdge: Edge,
    P: Policy<u32, Self>,
 {
    open spec fn spec_init_cost(&self, node_id: u32, context: &Graph<TNode, TEdge>) -> Cost {
        0
    }

    open spec fn spec_exploration_cost(
        &self,
        from: u32,
        to: u32,
        context: &Graph<TNode, TEdge>,
    ) -> Cost {
        self.candidate(from, to, context)
    }

    open spec fn explores(&self, from: u32, to: u32, context: &Graph<TNode, TEdge>) -> bool {
        self.improves(to, self.candidate(from, to, context))
    }

    open spec fn explored(
        &self,
        from: u32,
        to: u32,
        context: &Graph<TNode, TEdge>,
        after: &Self,
    ) -> bool {
        &&& after.terminate == self.terminate
        &&& if self.improves(to, self.candidate(from, to, context)) {
            &&& after.distances@ == self.distances@.insert(to, self.candidate(from, to, context))
            &&& after.parents@ == self.parents@.insert(to, from)
        } else {
            &&& after.distances@ == self.distances@
            &&& after.parents@ == self.parents@
        }
    }

    open spec fn visited(&self, node_id: u32, context: &Graph<TNode, TEdge>, after: &Self) -> bool {
        &&& after.terminate == self.terminate
        &&& after.parents@ == self.parents@
        &&& after.distances@ == if self.distances@.contains_key(node_id) {
            self.distances@
        } else {
            self.distances@.insert(node_id, 0)
        }
    }

    open spec fn stops(&self, node_id: u32, context: &Graph<TNode, TEdge>) -> bool {
        self.terminate.complies(&node_id, self)
    }

    open spec fn potential(&self) -> nat {
        self.slack()
    }

    open spec fn converges() -> bool {
        true
    }

    fn init_cost(&self, _node_id: u32, _context: &Graph<TNode, TEdge>) -> (cost: Cost) {
        0
    }

    /// Gives the distance at which `to` is reached over the connection from
    /// `from`: the distance on record for `from` plus the weight of the
    /// connection.
    fn exploration_cost(&self, from: u32, to: u32, context: &Graph<TNode, TEdge>) -> (cost: Cost) {
        let from_dist: Cost = match self.distances.get(&from) {
            Some(d) => *d,
            None => 0,
        };
        let edge_weight: Cost = match context.weight_of(from, to) {
            Some(w) => w,
            None => 0,
        };
        add_costs(from_dist, edge_weight)
    }

    /// Agrees where the connection reaches `to` for the first time or at a
    /// strictly smaller distance than the one on record, and records that
    /// distance and `from` as the node it was reached from.
    fn should_explore(&mut self, from: u32, to: u32, context: &Graph<TNode, TEdge>) -> (explore:
        bool) {
        let new_dist: Cost = self.exploration_cost(from, to, context);
        let better: bool = match self.distances.get(&to) {
            None => true,
            Some(current_dist) => new_dist < *current_dist,
        };
        if better {
            self.relax(from, to, new_dist);
        }
        better
    }

    /// Makes sure that a distance is on record for `node_id`: zero where
    /// there was none, as for the start node.
    fn visit(&mut self, node_id: u32, _context: &Graph<TNode, TEdge>) {
        if !self.distances.contains_key(&node_id) {
            self.distances.insert(node_id, 0);
            proof {
                lemma_slack_below_differs(
                    old(self).distances@,
                    final(self).distances@,
                    node_id,
                    0x1_0000_0000,
                );
            }
        }
    }

    fn should_stop(&self, node_id: u32, _context: &Graph<TNode, TEdge>) -> (stop: bool) {
        self.terminate.is_compliant(&node_id, self)
    }
}

} // verus!
