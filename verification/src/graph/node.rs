use vstd::prelude::*;

verus! {

/// A node of a graph: an identifier, unique within its graph, and an optional
/// payload.
///
/// The `spec_*` functions are the model that contracts speak of. Each has a
/// body that says nothing, so that an implementation outside verified code
/// needs to write the executable methods only.
pub trait Node: Sized {
    /// The payload type (`()` for none).
    type Data;

    /// Whether nodes of this type hold a payload.
    open spec fn holds_data() -> bool {
        arbitrary()
    }

    /// The node that `new` creates.
    open spec fn spec_new(id: u32, data: Option<Self::Data>) -> Self {
        arbitrary()
    }

    /// The node's identifier.
    open spec fn spec_id(&self) -> u32 {
        arbitrary()
    }

    /// The node's payload, if it holds one.
    open spec fn spec_data(&self) -> Option<Self::Data> {
        arbitrary()
    }

    /// Creates a node. A type that holds a payload must be given one.
    fn new(id: u32, data: Option<Self::Data>) -> (node: Self)
        requires
            Self::holds_data() ==> data is Some,
        ensures
            node == Self::spec_new(id, data),
            node.spec_id() == id,
            Self::holds_data() ==> node.spec_data() == data,
            !Self::holds_data() ==> node.spec_data() is None,
    ;

    /// Returns the node's identifier.
    fn id(&self) -> (id: u32)
        ensures
            id == self.spec_id(),
    ;

    /// Returns the node's payload, or `None` where it holds none.
    fn data(&self) -> (data: Option<&Self::Data>)
        ensures
            match data {
                Some(d) => self.spec_data() == Some(*d),
                None => self.spec_data() is None,
            },
    ;

    /// Overwrites the payload in place; the identifier never changes. A node
    /// without payload ignores the call.
    fn set_data(&mut self, _data: &Self::Data)
        ensures
            final(self).spec_id() == old(self).spec_id(),
        default_ensures
            *final(self) == *old(self),
    {
    }
}

} // verus!
