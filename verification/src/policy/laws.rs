//! The laws of the policy algebra.
use vstd::prelude::*;

use crate::graph::{Edge, Graph, Node};
use crate::policy::composite::{Composite, Not};
use crate::policy::Policy;
use crate::preset::policies::value::{AllowAll, DenyAll};

verus! {

/// Whether `policy` holds of every entity in every context.
pub open spec fn always_holds<E, C, P: Policy<E, C>>(policy: P) -> bool {
    forall|entity: E, context: C| #[trigger] policy.complies(&entity, &context)
}

/// Whether `policy` holds of no entity in any context.
pub open spec fn never_holds<E, C, P: Policy<E, C>>(policy: P) -> bool {
    forall|entity: E, context: C| !#[trigger] policy.complies(&entity, &context)
}

/// A conjunction with a policy that always holds decides as the other
/// operand does, on whichever side that policy stands.
pub proof fn lemma_and_identity<E, C, P: Policy<E, C>, T: Policy<E, C>>(
    policy: P,
    top: T,
    entity: E,
    context: C,
)
    requires
        always_holds::<E, C, T>(top),
    ensures
        Composite::<P, T>::And(policy, top).complies(&entity, &context) == policy.complies(
            &entity,
            &context,
        ),
        Composite::<T, P>::And(top, policy).complies(&entity, &context) == policy.complies(
            &entity,
            &context,
        ),
{
    assert(top.complies(&entity, &context));
}

/// A disjunction with a policy that never holds decides as the other operand
/// does, on whichever side that policy stands.
pub proof fn lemma_or_identity<E, C, P: Policy<E, C>, B: Policy<E, C>>(
    policy: P,
    bottom: B,
    entity: E,
    context: C,
)
    requires
        never_holds::<E, C, B>(bottom),
    ensures
        Composite::<P, B>::Or(policy, bottom).complies(&entity, &context) == policy.complies(
            &entity,
            &context,
        ),
        Composite::<B, P>::Or(bottom, policy).complies(&entity, &context) == policy.complies(
            &entity,
            &context,
        ),
{
    assert(!bottom.complies(&entity, &context));
}

/// A conjunction with a policy that never holds never holds.
pub proof fn lemma_and_absorbs<E, C, P: Policy<E, C>, B: Policy<E, C>>(
    policy: P,
    bottom: B,
    entity: E,
    context: C,
)
    requires
        never_holds::<E, C, B>(bottom),
    ensures
        !Composite::<P, B>::And(policy, bottom).complies(&entity, &context),
        !Composite::<B, P>::And(bottom, policy).complies(&entity, &context),
{
    assert(!bottom.complies(&entity, &context));
}

/// A disjunction with a policy that always holds always holds.
pub proof fn lemma_or_absorbs<E, C, P: Policy<E, C>, T: Policy<E, C>>(
    policy: P,
    top: T,
    entity: E,
    context: C,
)
    requires
        always_holds::<E, C, T>(top),
    ensures
        Composite::<P, T>::Or(policy, top).complies(&entity, &context),
        Composite::<T, P>::Or(top, policy).complies(&entity, &context),
{
    assert(top.complies(&entity, &context));
}

/// Conjunctions associate: a chain built from the left decides as one built
/// from the right.
pub proof fn lemma_and_associates<E, C, P: Policy<E, C>, Q: Policy<E, C>, R: Policy<E, C>>(
    p: P,
    q: Q,
    r: R,
    entity: E,
    context: C,
)
    ensures
        Composite::<Composite<P, Q>, R>::And(Composite::And(p, q), r).complies(&entity, &context)
            == Composite::<P, Composite<Q, R>>::And(p, Composite::And(q, r)).complies(
            &entity,
            &context,
        ),
{
}

/// Disjunctions associate: a chain built from the left decides as one built
/// from the right.
pub proof fn lemma_or_associates<E, C, P: Policy<E, C>, Q: Policy<E, C>, R: Policy<E, C>>(
    p: P,
    q: Q,
    r: R,
    entity: E,
    context: C,
)
    ensures
        Composite::<Composite<P, Q>, R>::Or(Composite::Or(p, q), r).complies(&entity, &context)
            == Composite::<P, Composite<Q, R>>::Or(p, Composite::Or(q, r)).complies(
            &entity,
            &context,
        ),
{
}

/// A double negation decides as the policy itself.
pub proof fn lemma_not_involutes<E, C, P: Policy<E, C>>(
    policy: P,
    not: Not<P>,
    twice: Not<Not<P>>,
    entity: E,
    context: C,
)
    requires
        not.spec_inner() == policy,
        twice.spec_inner() == not,
    ensures
        twice.complies(&entity, &context) == policy.complies(&entity, &context),
{
}

/// `AllowAll` and `DenyAll` together: their conjunction never holds, their
/// disjunction always holds, and the negation of `DenyAll` decides as
/// `AllowAll` does.
pub proof fn lemma_allow_all_deny_all<Entity, TNode: Node, TEdge: Edge>(
    allow: AllowAll,
    deny: DenyAll,
    not_deny: Not<DenyAll>,
    entity: Entity,
    context: Graph<TNode, TEdge>,
)
    requires
        not_deny.spec_inner() == deny,
    ensures
        !Composite::<AllowAll, DenyAll>::And(allow, deny).complies(&entity, &context),
        Composite::<AllowAll, DenyAll>::Or(allow, deny).complies(&entity, &context),
        not_deny.complies(&entity, &context) == allow.complies(&entity, &context),
{
}

} // verus!
