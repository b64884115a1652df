use vstd::prelude::*;

use crate::graph::edge::Edge;
use crate::graph::node::Node;

verus! {

/// An incremental source of candidate nodes and edges, read from a context
/// that the caller supplies.
///
/// The spec functions are the model that contracts speak of. Each has a body
/// that says nothing, so that an implementation outside verified code needs to
/// write the executable method only.
pub trait Sampler<Ctx>: Sized {
    /// The node type that is sampled.
    type Node: Node;

    /// The edge type that is sampled.
    type Edge: Edge;

    /// Whether the sampler can read `context` in its present state.
    open spec fn reads(&self, context: &Ctx) -> bool {
        arbitrary()
    }

    /// The number of batches that are left.
    open spec fn remaining(&self, context: &Ctx) -> nat {
        arbitrary()
    }

    /// Whether the next call may return `batch`: candidate nodes and edges,
    /// or `None` when the source is exhausted.
    open spec fn yields(
        &self,
        context: &Ctx,
        batch: Option<(Seq<Self::Node>, Seq<Self::Edge>)>,
    ) -> bool {
        arbitrary()
    }

    /// Whether `after` is the state that a call leaves.
    open spec fn advanced(&self, context: &Ctx, after: &Self) -> bool {
        arbitrary()
    }

    /// Returns the next batch, or `None` when the source is exhausted.
    fn next(&mut self, context: &Ctx) -> (batch: Option<(Vec<Self::Node>, Vec<Self::Edge>)>)
        requires
            old(self).reads(context),
        ensures
            final(self).reads(context),
            old(self).advanced(context, final(self)),
            old(self).yields(context, batch_view(batch)),
            batch is Some ==> final(self).remaining(context) < old(self).remaining(context),
    ;
}

/// Whether `sampler` can give one batch only in its present state: what it
/// yields is settled by the context and its state.
pub open spec fn settled<Ctx, S: Sampler<Ctx>>(sampler: S, context: &Ctx) -> bool {
    forall|a: Option<(Seq<S::Node>, Seq<S::Edge>)>, b: Option<(Seq<S::Node>, Seq<S::Edge>)>|
        #![trigger sampler.yields(context, a), sampler.yields(context, b)]
        sampler.yields(context, a) && sampler.yields(context, b) ==> a == b
}

/// A batch as contracts speak of it.
pub open spec fn batch_view<N, E>(batch: Option<(Vec<N>, Vec<E>)>) -> Option<(Seq<N>, Seq<E>)> {
    match batch {
        Some((nodes, edges)) => Some((nodes@, edges@)),
        None => None,
    }
}

} // verus!
