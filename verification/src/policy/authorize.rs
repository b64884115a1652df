use vstd::prelude::*;

use crate::policy::composite::Composite;

verus! {

/// An admission check that records what it admits as part of the check: a seen
/// set grows, a budget shrinks. How often and in which order it is called
/// therefore matters.
///
/// `admits` and `recorded` are what contracts speak of. Their bodies say
/// nothing, so that an implementation outside verified code needs to write
/// `add` only.
pub trait Authorize<Entity, Ctx>: Sized {
    /// Whether `entity` is admitted in the present state.
    open spec fn admits(&self, entity: &Entity, context: &Ctx) -> bool {
        arbitrary()
    }

    /// Whether `after` is the state that the check of `entity` leaves.
    open spec fn recorded(&self, entity: &Entity, context: &Ctx, after: &Self) -> bool {
        arbitrary()
    }

    /// Decides whether `entity` is admitted, and records the decision.
    fn add(&mut self, entity: &Entity, context: &Ctx) -> (admitted: bool)
        ensures
            admitted == old(self).admits(entity, context),
            old(self).recorded(entity, context, final(self)),
    ;
}

/// Whether putting the first `n` of `entities` to a policy, in order, takes
/// it from `start` to `left`.
pub open spec fn checked<E, Ctx, P: Authorize<E, Ctx>>(
    start: P,
    entities: Seq<E>,
    context: &Ctx,
    n: nat,
    left: P,
) -> bool
    decreases n,
{
    if n == 0 {
        left == start
    } else {
        exists|p: P|
            checked(start, entities, context, (n - 1) as nat, p) && #[trigger] p.recorded(
                &entities[n - 1],
                context,
                &left,
            )
    }
}

impl<E, Ctx, L, R> Authorize<E, Ctx> for Composite<L, R> where
    L: Authorize<E, Ctx>,
    R: Authorize<E, Ctx>,
 {
    open spec fn admits(&self, entity: &E, context: &Ctx) -> bool {
        match self {
            Composite::And(left, right) => left.admits(entity, context) && right.admits(
                entity,
                context,
            ),
            Composite::Or(left, right) => left.admits(entity, context) || right.admits(
                entity,
                context,
            ),
        }
    }

    open spec fn recorded(&self, entity: &E, context: &Ctx, after: &Self) -> bool {
        match (self, after) {
            (Composite::And(left, right), Composite::And(left_after, right_after)) => {
                left.recorded(entity, context, left_after) && right.recorded(
                    entity,
                    context,
                    right_after,
                )
            },
            (Composite::Or(left, right), Composite::Or(left_after, right_after)) => {
                left.recorded(entity, context, left_after) && right.recorded(
                    entity,
                    context,
                    right_after,
                )
            },
            _ => false,
        }
    }

    /// Asks the left operand, then the right one, each exactly once: both
    /// record the entity whatever the other decides.
    fn add(&mut self, entity: &E, context: &Ctx) -> (admitted: bool) {
        match self {
            Composite::And(left, right) => {
                let first: bool = left.add(entity, context);
                let second: bool = right.add(entity, context);
                first && second
            },
            Composite::Or(left, right) => {
                let first: bool = left.add(entity, context);
                let second: bool = right.add(entity, context);
                first || second
            },
        }
    }
}

} // verus!
