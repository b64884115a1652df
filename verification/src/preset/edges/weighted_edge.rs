use vstd::prelude::*;

use crate::graph::edge::{Cost, Edge, UNIT_WEIGHT};

verus! {

/// A directed edge that stores its weight.
#[derive(Copy, Clone, Debug, Default)]
pub struct WeightedEdge {
    to: u32,
    from: u32,
    weight: Cost,
}

impl WeightedEdge {
    /// A new edge has the endpoints it was created with, and the weight it
    /// was given or else the unit weight.
    pub proof fn lemma_new(from: u32, to: u32, cost: Option<Cost>)
        ensures
            Self::spec_new(from, to, cost).spec_from() == from,
            Self::spec_new(from, to, cost).spec_to() == to,
            Self::spec_new(from, to, cost).spec_weight() == match cost {
                Some(w) => w,
                None => UNIT_WEIGHT,
            },
    {
    }
}

impl Edge for WeightedEdge {
    open spec fn weighted() -> bool {
        true
    }

    closed spec fn spec_new(from: u32, to: u32, cost: Option<Cost>) -> Self {
        WeightedEdge {
            from,
            to,
            weight: match cost {
                Some(w) => w,
                None => UNIT_WEIGHT,
            },
        }
    }

    closed spec fn spec_from(&self) -> u32 {
        self.from
    }

    closed spec fn spec_to(&self) -> u32 {
        self.to
    }

    closed spec fn spec_weight(&self) -> Cost {
        self.weight
    }

    fn new(from: u32, to: u32, weight: Option<Cost>) -> (edge: Self) {
        let weight: Cost = match weight {
            Some(w) => w,
            None => UNIT_WEIGHT,
        };
        WeightedEdge { from, to, weight }
    }

    fn to(&self) -> (to: u32) {
        self.to
    }

    fn from(&self) -> (from: u32) {
        self.from
    }

    fn weight(&self) -> (weight: Cost) {
        self.weight
    }
}

} // verus!
