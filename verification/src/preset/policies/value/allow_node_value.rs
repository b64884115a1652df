use std::collections::HashSet;
use std::hash::Hash;
use vstd::prelude::*;
use vstd::std_specs::hash::obeys_key_model;

use crate::graph::{Edge, Graph, Node};
use crate::policy::Policy;

verus! {

broadcast use vstd::std_specs::hash::group_hash_axioms;

/// Admits the nodes whose payload is on a list of allowed values. A node
/// without payload is never admitted.
#[derive(Default)]
pub struct AllowNodeValue<T> {
    allowed_values: HashSet<T>,
}

impl<T> AllowNodeValue<T> {
    /// Values of the payload type can be looked up by hashing.
    #[verifier::type_invariant]
    spec fn hashes_soundly(&self) -> bool {
        obeys_key_model::<T>()
    }
}

impl<T> AllowNodeValue<T> where T: Eq + Hash {
    /// The allowed values.
    pub closed spec fn allowed(&self) -> Set<T> {
        self.allowed_values@
    }

    /// Creates the policy from the values that it allows.
    pub fn with_allowed_values(values: Vec<T>) -> (policy: Self)
        requires
            obeys_key_model::<T>(),
        ensures
            policy.allowed() == values@.to_set(),
    {
        let mut allowed_values: HashSet<T> = HashSet::new();
        let ghost all = values@;
        for value in it: values
            invariant
                it.seq() == all,
                obeys_key_model::<T>(),
                allowed_values@ == all.take(it.index() as int).to_set(),
        {
            allowed_values.insert(value);
            assert(all.take(it.index() + 1) =~= all.take(it.index() as int).push(value));
            assert(all.take(it.index() as int).push(value).to_set() =~= all.take(
                it.index() as int,
            ).to_set().insert(value)) by {
                vstd::seq_lib::seq_to_set_is_finite(all.take(it.index() as int));
                all.take(it.index() as int).lemma_push_to_set_commute(value);
            }
        }
        assert(all.take(all.len() as int) =~= all);
        AllowNodeValue { allowed_values }
    }

    /// Adds `value` to the allowed values.
    pub fn add_allowed_value(&mut self, value: T)
        ensures
            final(self).allowed() == old(self).allowed().insert(value),
    {
        proof {
            use_type_invariant(&*self);
        }
        let mut taken = AllowNodeValue { allowed_values: HashSet::new() };
        std::mem::swap(self, &mut taken);
        let mut values: HashSet<T> = taken.allowed_values;
        values.insert(value);
        *self = AllowNodeValue { allowed_values: values };
    }

    /// Returns whether `value` is allowed.
    pub fn allows(&self, value: &T) -> (allowed: bool)
        ensures
            allowed == self.allowed().contains(*value),
    {
        proof {
            use_type_invariant(self);
        }
        self.allowed_values.contains(value)
    }

    /// Returns the number of allowed values.
    pub fn allowed_count(&self) -> (count: usize)
        ensures
            count == self.allowed().len(),
    {
        proof {
            use_type_invariant(self);
        }
        self.allowed_values.len()
    }
}

impl<Entity, TNode, TEdge> Policy<Entity, Graph<TNode, TEdge>> for AllowNodeValue<
    Entity::Data,
> where TNode: Node, TEdge: Edge, Entity: Node, Entity::Data: Eq + Hash {
    open spec fn complies(&self, entity: &Entity, context: &Graph<TNode, TEdge>) -> bool {
        match entity.spec_data() {
            Some(v) => self.allowed().contains(v),
            None => false,
        }
    }

    fn is_compliant(&self, entity: &Entity, _context: &Graph<TNode, TEdge>) -> (compliant: bool) {
        match entity.data() {
            Some(v) => self.allows(v),
            None => false,
        }
    }
}

} // verus!
