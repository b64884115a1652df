//! Predicates over an entity and a context, and the algebra that combines
//! them.
pub mod authorize;
pub mod composite;
pub mod laws;
pub mod terminate;

pub use authorize::Authorize;
pub use composite::{Composite, Not};
pub use terminate::Terminate;

use vstd::prelude::*;

verus! {

/// A predicate that says whether an entity complies, given a context.
///
/// It gates the admission of nodes and edges while a graph is built (the
/// context is the graph so far) and the end of a traversal (the entity is the
/// node just visited, the context the visitor's bookkeeping).
///
/// `complies` is what contracts speak of. Its body says nothing, so that an
/// implementation outside verified code needs to write `is_compliant` only.
pub trait Policy<Entity, Context> {
    /// Whether `entity` complies in `context`.
    open spec fn complies(&self, entity: &Entity, context: &Context) -> bool {
        arbitrary()
    }

    /// Decides whether `entity` complies in `context`.
    fn is_compliant(&self, entity: &Entity, context: &Context) -> (compliant: bool)
        ensures
            compliant == self.complies(entity, context),
    ;

    /// Decides whether `entity` complies in `context`; `is_compliant` under
    /// its other name.
    fn apply(&self, entity: &Entity, context: &Context) -> (compliant: bool)
        ensures
            compliant == self.complies(entity, context),
    {
        self.is_compliant(entity, context)
    }
}

impl<E, C, L, R> Policy<E, C> for Composite<L, R> where L: Policy<E, C>, R: Policy<E, C> {
    open spec fn complies(&self, entity: &E, context: &C) -> bool {
        match self {
            Composite::And(left, right) => left.complies(entity, context) && right.complies(
                entity,
                context,
            ),
            Composite::Or(left, right) => left.complies(entity, context) || right.complies(
                entity,
                context,
            ),
        }
    }

    /// Asks the left operand, then the right one, each exactly once.
    fn is_compliant(&self, entity: &E, context: &C) -> (compliant: bool) {
        match self {
            Composite::And(left, right) => {
                let first: bool = left.is_compliant(entity, context);
                let second: bool = right.is_compliant(entity, context);
                first && second
            },
            Composite::Or(left, right) => {
                let first: bool = left.is_compliant(entity, context);
                let second: bool = right.is_compliant(entity, context);
                first || second
            },
        }
    }
}

impl<E, C, P> Policy<E, C> for Not<P> where P: Policy<E, C> {
    open spec fn complies(&self, entity: &E, context: &C) -> bool {
        !self.spec_inner().complies(entity, context)
    }

    fn is_compliant(&self, entity: &E, context: &C) -> (compliant: bool) {
        !self.inner().is_compliant(entity, context)
    }
}

} // verus!
