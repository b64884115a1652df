use std::collections::HashSet;
use vstd::prelude::*;

use crate::graph::{Edge, Node};
use crate::policy::Authorize;

verus! {

broadcast use vstd::std_specs::hash::group_hash_axioms;

/// Admits each node identifier once: a node is admitted unless a node with
/// its identifier was put to the policy before.
#[derive(Debug)]
pub struct UniqueNode {
    added: HashSet<u32>,
}

impl UniqueNode {
    /// The identifiers that were put to the policy.
    pub closed spec fn seen(&self) -> Set<u32> {
        self.added@
    }
}

impl Default for UniqueNode {
    /// Creates a policy that has seen nothing.
    fn default() -> (policy: Self)
        ensures
            policy.seen() == Set::<u32>::empty(),
    {
        UniqueNode { added: HashSet::new() }
    }
}

impl<Entity: Node, Ctx> Authorize<Entity, Ctx> for UniqueNode {
    open spec fn admits(&self, entity: &Entity, context: &Ctx) -> bool {
        !self.seen().contains(entity.spec_id())
    }

    open spec fn recorded(&self, entity: &Entity, context: &Ctx, after: &Self) -> bool {
        after.seen() == self.seen().insert(entity.spec_id())
    }

    fn add(&mut self, entity: &Entity, _context: &Ctx) -> (admitted: bool) {
        self.added.insert(entity.id())
    }
}

/// The number under which the pair of endpoints `(from, to)` is kept.
pub open spec fn pair_key(from: u32, to: u32) -> u64 {
    (from * 0x1_0000_0000 + to) as u64
}

/// Admits each pair of endpoints once: an edge is admitted unless an edge
/// from its source to its destination was put to the policy before.
/// Direction counts.
#[derive(Debug)]
pub struct UniqueUnweightedEdge {
    added: HashSet<u64>,
}

impl UniqueUnweightedEdge {
    /// The pairs of endpoints that were put to the policy.
    pub closed spec fn seen(&self) -> Set<(u32, u32)> {
        Set::new(|pair: (u32, u32)| self.added@.contains(pair_key(pair.0, pair.1)))
    }
}

impl Default for UniqueUnweightedEdge {
    /// Creates a policy that has seen nothing.
    fn default() -> (policy: Self)
        ensures
            policy.seen() == Set::<(u32, u32)>::empty(),
    {
        let policy = UniqueUnweightedEdge { added: HashSet::new() };
        assert(policy.seen() =~= Set::<(u32, u32)>::empty());
        policy
    }
}

impl<Entity: Edge, Ctx> Authorize<Entity, Ctx> for UniqueUnweightedEdge {
    open spec fn admits(&self, entity: &Entity, context: &Ctx) -> bool {
        !self.seen().contains((entity.spec_from(), entity.spec_to()))
    }

    open spec fn recorded(&self, entity: &Entity, context: &Ctx, after: &Self) -> bool {
        after.seen() == self.seen().insert((entity.spec_from(), entity.spec_to()))
    }

    fn add(&mut self, entity: &Entity, _context: &Ctx) -> (admitted: bool) {
        let from: u32 = entity.from();
        let to: u32 = entity.to();
        let key: u64 = (from as u64) * 0x1_0000_0000 + (to as u64);
        let admitted: bool = self.added.insert(key);
        proof {
            assert forall|pair: (u32, u32)|
                pair_key(pair.0, pair.1) == key implies pair == (from, to) by {
                assert(pair.0 * 0x1_0000_0000 + pair.1 == from * 0x1_0000_0000 + to);
            }
            assert(final(self).seen() =~= old(self).seen().insert((from, to)));
        }
        admitted
    }
}

} // verus!
