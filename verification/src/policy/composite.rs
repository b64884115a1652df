use vstd::prelude::*;

use crate::policy::authorize::Authorize;

verus! {

/// Two policies combined: `And` holds where both hold, `Or` where either does.
///
/// The operands are moved in, so that no policy stands in two branches of one
/// expression. Both are always evaluated, the left one first.
pub enum Composite<L, R> {
    And(L, R),
    Or(L, R),
}

impl<L, R> Composite<L, R> {
    /// Combines this composite with `other`: both must hold.
    pub fn and<O>(self, other: O) -> (both: Composite<Self, O>)
        ensures
            both == Composite::<Self, O>::And(self, other),
    {
        Composite::And(self, other)
    }

    /// Combines this composite with `other`: either must hold.
    pub fn or<O>(self, other: O) -> (either: Composite<Self, O>)
        ensures
            either == Composite::<Self, O>::Or(self, other),
    {
        Composite::Or(self, other)
    }
}

/// The negation of a policy, which is moved in.
pub struct Not<P>(P);

impl<P> Not<P> {
    /// The policy that is negated.
    pub closed spec fn spec_inner(&self) -> P {
        self.0
    }

    /// Negates `policy`.
    pub fn new(policy: P) -> (not: Self)
        ensures
            not.spec_inner() == policy,
    {
        Not(policy)
    }

    /// Returns the policy that is negated.
    pub fn inner(&self) -> (policy: &P)
        ensures
            *policy == self.spec_inner(),
    {
        &self.0
    }

    /// Combines this negation with `other`: both must hold.
    pub fn and<R>(self, other: R) -> (both: Composite<Self, R>)
        ensures
            both == Composite::<Self, R>::And(self, other),
    {
        Composite::And(self, other)
    }

    /// Combines this negation with `other`: either must hold.
    pub fn or<R>(self, other: R) -> (either: Composite<Self, R>)
        ensures
            either == Composite::<Self, R>::Or(self, other),
    {
        Composite::Or(self, other)
    }
}

impl<E, Ctx, P> Authorize<E, Ctx> for Not<P> where P: Authorize<E, Ctx> {
    open spec fn admits(&self, entity: &E, context: &Ctx) -> bool {
        !self.spec_inner().admits(entity, context)
    }

    open spec fn recorded(&self, entity: &E, context: &Ctx, after: &Self) -> bool {
        self.spec_inner().recorded(entity, context, &after.spec_inner())
    }

    /// Asks the policy that is negated, which records the entity as it
    /// would on its own.
    fn add(&mut self, entity: &E, context: &Ctx) -> (admitted: bool) {
        !self.0.add(entity, context)
    }
}

} // verus!
