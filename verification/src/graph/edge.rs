use vstd::prelude::*;

verus! {

/// A cost or weight: the priority of a pending node, the weight of an edge, a
/// distance.
pub type Cost = i64;

/// The weight of an edge that stores none.
pub const UNIT_WEIGHT: Cost = 1;

/// A directed edge between two node identifiers, with a weight.
///
/// The `spec_*` functions are the model that contracts speak of. Each has a
/// body that says nothing, so that an implementation outside verified code
/// needs to write the executable methods only.
pub trait Edge: Sized {
    /// Whether edges of this type store the weight they are created with.
    open spec fn weighted() -> bool {
        arbitrary()
    }

    /// The edge that `new` creates.
    open spec fn spec_new(from: u32, to: u32, cost: Option<Cost>) -> Self {
        arbitrary()
    }

    /// The source node's identifier.
    open spec fn spec_from(&self) -> u32 {
        arbitrary()
    }

    /// The destination node's identifier.
    open spec fn spec_to(&self) -> u32 {
        arbitrary()
    }

    /// The edge's weight.
    open spec fn spec_weight(&self) -> Cost {
        arbitrary()
    }

    /// Creates an edge from `from` to `to`. A weighted type stores `cost`, or
    /// the unit weight where none is given; an unweighted type ignores it.
    fn new(from: u32, to: u32, cost: Option<Cost>) -> (edge: Self)
        ensures
            edge == Self::spec_new(from, to, cost),
            edge.spec_from() == from,
            edge.spec_to() == to,
            edge.spec_weight() == weight_given(Self::weighted(), cost),
    ;

    /// Returns the destination node's identifier.
    fn to(&self) -> (to: u32)
        ensures
            to == self.spec_to(),
    ;

    /// Returns the source node's identifier.
    fn from(&self) -> (from: u32)
        ensures
            from == self.spec_from(),
    ;

    /// Returns the edge's weight; the unit weight for an unweighted type.
    fn weight(&self) -> (weight: Cost)
        ensures
            weight == self.spec_weight(),
    ;

    /// Sets the edge's weight; the endpoints never change. An edge that does
    /// not support the change ignores the call.
    fn set_weight(&mut self, _weight: Cost)
        ensures
            final(self).spec_from() == old(self).spec_from(),
            final(self).spec_to() == old(self).spec_to(),
        default_ensures
            *final(self) == *old(self),
    {
    }
}

/// The weight of a new edge: what was given if the type stores weights and one
/// was given, the unit weight otherwise.
pub open spec fn weight_given(weighted: bool, cost: Option<Cost>) -> Cost {
    match cost {
        Some(c) if weighted => c,
        _ => UNIT_WEIGHT,
    }
}

} // verus!
