use std::collections::HashSet;
use std::hash::Hash;
use vstd::prelude::*;
use vstd::std_specs::hash::obeys_key_model;

use crate::graph::{Edge, Graph, Node};
use crate::policy::Policy;

verus! {

broadcast use vstd::std_specs::hash::group_hash_axioms;

/// Admits the nodes whose payload is not on a list of denied values. A node
/// without payload is always admitted.
#[derive(Default)]
pub struct DenyNodeValue<T> {
    denied_values: HashSet<T>,
}

impl<T> DenyNodeValue<T> {
    /// Values of the payload type can be looked up by hashing.
    #[verifier::type_invariant]
    spec fn hashes_soundly(&self) -> bool {
        obeys_key_model::<T>()
    }
}

impl<T> DenyNodeValue<T> where T: Eq + Hash {
    /// The denied values.
    pub closed spec fn denied(&self) -> Set<T> {
        self.denied_values@
    }

    /// Creates the policy from the values that it denies.
    pub fn with_denied_values(values: Vec<T>) -> (policy: Self)
        requires
            obeys_key_model::<T>(),
        ensures
            policy.denied() == values@.to_set(),
    {
        let mut denied_values: HashSet<T> = HashSet::new();
        let ghost all = values@;
        for value in it: values
            invariant
                it.seq() == all,
                obeys_key_model::<T>(),
                denied_values@ == all.take(it.index() as int).to_set(),
        {
            denied_values.insert(value);
            assert(all.take(it.index() + 1) =~= all.take(it.index() as int).push(value));
            assert(all.take(it.index() as int).push(value).to_set() =~= all.take(
                it.index() as int,
            ).to_set().insert(value)) by {
                vstd::seq_lib::seq_to_set_is_finite(all.take(it.index() as int));
                all.take(it.index() as int).lemma_push_to_set_commute(value);
            }
        }
        assert(all.take(all.len() as int) =~= all);
        DenyNodeValue { denied_values }
    }

    /// Adds `value` to the denied values.
    pub fn add_denied_value(&mut self, value: T)
        ensures
            final(self).denied() == old(self).denied().insert(value),
    {
        proof {
            use_type_invariant(&*self);
        }
        let mut taken = DenyNodeValue { denied_values: HashSet::new() };
        std::mem::swap(self, &mut taken);
        let mut values: HashSet<T> = taken.denied_values;
        values.insert(value);
        *self = DenyNodeValue { denied_values: values };
    }

    /// Returns whether `value` is denied.
    pub fn denies(&self, value: &T) -> (denied: bool)
        ensures
            denied == self.denied().contains(*value),
    {
        proof {
            use_type_invariant(self);
        }
        self.denied_values.contains(value)
    }

    /// Returns the number of denied values.
    pub fn denied_count(&self) -> (count: usize)
        ensures
            count == self.denied().len(),
    {
        proof {
            use_type_invariant(self);
        }
        self.denied_values.len()
    }
}

impl<Entity, TNode, TEdge> Policy<Entity, Graph<TNode, TEdge>> for DenyNodeValue<
    Entity::Data,
> where TNode: Node, TEdge: Edge, Entity: Node, Entity::Data: Eq + Hash {
    open spec fn complies(&self, entity: &Entity, context: &Graph<TNode, TEdge>) -> bool {
        match entity.spec_data() {
            Some(v) => !self.denied().contains(v),
            None => true,
        }
    }

    fn is_compliant(&self, entity: &Entity, _context: &Graph<TNode, TEdge>) -> (compliant: bool) {
        match entity.data() {
            Some(v) => !self.denies(v),
            None => true,
        }
    }
}

} // verus!
