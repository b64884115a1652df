use std::hash::Hash;
use vstd::prelude::*;

use crate::graph::{Edge, Node};
use crate::policy::Authorize;

pub use crate::preset::policies::value::allow_node_value::AllowNodeValue;
pub use crate::preset::policies::value::allow_weight_above::AllowWeightAbove;
pub use crate::preset::policies::value::allow_weight_below::AllowWeightUnder;

verus! {

impl<Entity, Ctx> Authorize<Entity, Ctx> for AllowNodeValue<Entity::Data> where
    Entity: Node,
    Entity::Data: Eq + Hash,
 {
    open spec fn admits(&self, entity: &Entity, context: &Ctx) -> bool {
        match entity.spec_data() {
            Some(v) => self.allowed().contains(v),
            None => false,
        }
    }

    open spec fn recorded(&self, entity: &Entity, context: &Ctx, after: &Self) -> bool {
        after.allowed() == self.allowed()
    }

    fn add(&mut self, entity: &Entity, _context: &Ctx) -> (admitted: bool) {
        match entity.data() {
            Some(v) => self.allows(v),
            None => false,
        }
    }
}

impl<Entity: Edge, Ctx> Authorize<Entity, Ctx> for AllowWeightAbove {
    open spec fn admits(&self, entity: &Entity, context: &Ctx) -> bool {
        entity.spec_weight() > self.bound()
    }

    open spec fn recorded(&self, entity: &Entity, context: &Ctx, after: &Self) -> bool {
        after.bound() == self.bound()
    }

    fn add(&mut self, entity: &Entity, _context: &Ctx) -> (admitted: bool) {
        entity.weight() > self.threshold()
    }
}

impl<Entity: Edge, Ctx> Authorize<Entity, Ctx> for AllowWeightUnder {
    open spec fn admits(&self, entity: &Entity, context: &Ctx) -> bool {
        entity.spec_weight() < self.bound()
    }

    open spec fn recorded(&self, entity: &Entity, context: &Ctx, after: &Self) -> bool {
        after.bound() == self.bound()
    }

    fn add(&mut self, entity: &Entity, _context: &Ctx) -> (admitted: bool) {
        entity.weight() < self.threshold()
    }
}

} // verus!
