use vstd::prelude::*;

use crate::policy::authorize::checked;
use crate::policy::Authorize;

verus! {

/// Admits a fixed number of entities, whatever they are, and none after
/// that.
#[derive(Debug)]
pub struct AuthBudget {
    budget: u32,
}

impl AuthBudget {
    /// The number of entities that are still admitted.
    pub closed spec fn left(&self) -> nat {
        self.budget as nat
    }

    /// Creates a policy that admits `budget` entities.
    pub fn with_max(budget: u32) -> (policy: Self)
        ensures
            policy.left() == budget,
    {
        AuthBudget { budget }
    }

    /// Returns the number of entities that are still admitted.
    pub fn remaining(&self) -> (left: u32)
        ensures
            left == self.left(),
    {
        self.budget
    }
}

impl Default for AuthBudget {
    /// Creates a policy that admits nothing.
    fn default() -> (policy: Self)
        ensures
            policy.left() == 0,
    {
        AuthBudget { budget: 0 }
    }
}

impl<Entity, Ctx> Authorize<Entity, Ctx> for AuthBudget {
    open spec fn admits(&self, entity: &Entity, context: &Ctx) -> bool {
        self.left() > 0
    }

    open spec fn recorded(&self, entity: &Entity, context: &Ctx, after: &Self) -> bool {
        after.left() == if self.left() > 0 {
            (self.left() - 1) as nat
        } else {
            0
        }
    }

    fn add(&mut self, _entity: &Entity, _context: &Ctx) -> (admitted: bool) {
        if self.budget > 0 {
            self.budget -= 1;
            return true;
        }
        false
    }
}

/// A budget admits exactly the first calls, as many as it was created for,
/// whatever the entities are: after `n` calls, the next entity is admitted
/// if and only if `n` is less than the budget at the start.
pub proof fn lemma_budget_admits_first<Entity, Ctx>(
    start: AuthBudget,
    entities: Seq<Entity>,
    context: &Ctx,
    n: nat,
    now: AuthBudget,
    next: &Entity,
)
    requires
        checked(start, entities, context, n, now),
    ensures
        now.left() == if n < start.left() {
            (start.left() - n) as nat
        } else {
            0
        },
        now.admits(next, context) <==> n < start.left(),
    decreases n,
{
    if n > 0 {
        let before = choose|p: AuthBudget|
            checked(start, entities, context, (n - 1) as nat, p) && #[trigger] p.recorded(
                &entities[n - 1],
                context,
                &now,
            );
        lemma_budget_admits_first(start, entities, context, (n - 1) as nat, before, next);
    }
}

} // verus!
