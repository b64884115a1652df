use vstd::prelude::*;

use crate::graph::edge::{Cost, Edge, UNIT_WEIGHT};

verus! {

/// A directed edge without a weight of its own: its weight is always one.
#[derive(Copy, Clone, Debug, Default)]
pub struct UnweightedEdge {
    to: u32,
    from: u32,
}

impl UnweightedEdge {
    /// A new edge has the endpoints it was created with, and the unit
    /// weight.
    pub proof fn lemma_new(from: u32, to: u32, cost: Option<Cost>)
        ensures
            Self::spec_new(from, to, cost).spec_from() == from,
            Self::spec_new(from, to, cost).spec_to() == to,
            Self::spec_new(from, to, cost).spec_weight() == UNIT_WEIGHT,
    {
    }
}

impl Edge for UnweightedEdge {
    open spec fn weighted() -> bool {
        false
    }

    closed spec fn spec_new(from: u32, to: u32, cost: Option<Cost>) -> Self {
        UnweightedEdge { from, to }
    }

    closed spec fn spec_from(&self) -> u32 {
        self.from
    }

    closed spec fn spec_to(&self) -> u32 {
        self.to
    }

    open spec fn spec_weight(&self) -> Cost {
        UNIT_WEIGHT
    }

    fn new(from: u32, to: u32, _weight: Option<Cost>) -> (edge: Self) {
        UnweightedEdge { from, to }
    }

    fn to(&self) -> (to: u32) {
        self.to
    }

    fn from(&self) -> (from: u32) {
        self.from
    }

    fn weight(&self) -> (weight: Cost) {
        UNIT_WEIGHT
    }
}

} // verus!
