use vstd::prelude::*;

use crate::graph::edge::Cost;

verus! {

/// The per-traversal controller: it decides which connections are explored and
/// at what priority, records what a visit finalizes, and says when to stop.
/// The graph and the frontier know nothing of the search that it runs.
///
/// The spec functions are the model that contracts speak of: what a call
/// returns is a function of the state before it, and the state after it stands
/// in a relation to the state before. Each has a body that says nothing, so
/// that an implementation outside verified code needs to write the executable
/// methods only.
///
/// `potential` measures progress. A visitor that converges lets a connection
/// be explored only at the price of potential, so that it cannot agree to
/// exploration for ever.
pub trait Visitor<Ctx>: Sized {
    /// The priority at which the start node is enqueued.
    open spec fn spec_init_cost(&self, node_id: u32, context: &Ctx) -> Cost {
        arbitrary()
    }

    /// The priority at which `to` is enqueued when reached from `from`.
    open spec fn spec_exploration_cost(&self, from: u32, to: u32, context: &Ctx) -> Cost {
        arbitrary()
    }

    /// Whether the connection from `from` to `to` is explored.
    open spec fn explores(&self, from: u32, to: u32, context: &Ctx) -> bool {
        arbitrary()
    }

    /// Whether `after` is the state that deciding on the connection leaves.
    open spec fn explored(&self, from: u32, to: u32, context: &Ctx, after: &Self) -> bool {
        arbitrary()
    }

    /// Whether `after` is the state that a visit of `node_id` leaves.
    open spec fn visited(&self, node_id: u32, context: &Ctx, after: &Self) -> bool {
        arbitrary()
    }

    /// Whether the traversal stops after the visit of `node_id`.
    open spec fn stops(&self, node_id: u32, context: &Ctx) -> bool {
        arbitrary()
    }

    /// What is left to give away before no connection is explored any more.
    open spec fn potential(&self) -> nat {
        arbitrary()
    }

    /// Whether every explored connection costs this type potential.
    open spec fn converges() -> bool {
        arbitrary()
    }

    /// Gives the priority at which the start node is enqueued; zero by
    /// convention.
    fn init_cost(&self, node_id: u32, context: &Ctx) -> (cost: Cost)
        ensures
            cost == self.spec_init_cost(node_id, context),
    ;

    /// Gives the priority at which `to` is enqueued when reached from `from`;
    /// one by convention.
    fn exploration_cost(&self, from: u32, to: u32, context: &Ctx) -> (cost: Cost)
        ensures
            cost == self.spec_exploration_cost(from, to, context),
    ;

    /// Decides whether the connection from `from` to `to` is explored, and
    /// records what the decision rests on.
    fn should_explore(&mut self, from: u32, to: u32, context: &Ctx) -> (explore: bool)
        ensures
            explore == old(self).explores(from, to, context),
            old(self).explored(from, to, context, final(self)),
            final(self).potential() <= old(self).potential(),
            Self::converges() && explore ==> final(self).potential() < old(self).potential(),
    ;

    /// Finalizes `node_id`.
    fn visit(&mut self, node_id: u32, context: &Ctx)
        ensures
            old(self).visited(node_id, context, final(self)),
            final(self).potential() <= old(self).potential(),
    ;

    /// Decides whether the traversal stops after the visit of `node_id`;
    /// never, by convention.
    fn should_stop(&self, node_id: u32, context: &Ctx) -> (stop: bool)
        ensures
            stop == self.stops(node_id, context),
    ;
}

} // verus!
