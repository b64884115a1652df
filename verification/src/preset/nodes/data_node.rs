use vstd::prelude::*;

use crate::graph::node::Node;

verus! {

/// A node that carries a payload beside its identifier.
#[derive(Debug)]
pub struct DataNode<T> {
    id: u32,
    data: T,
}

impl<T> DataNode<T> {
    /// The identifier.
    pub closed spec fn identifier(&self) -> u32 {
        self.id
    }

    /// The payload.
    pub closed spec fn payload(&self) -> T {
        self.data
    }
}

impl<T: Clone> DataNode<T> {
    /// A new node has the identifier and the payload it was created with.
    pub proof fn lemma_new(id: u32, data: Option<T>)
        requires
            data is Some,
        ensures
            Self::spec_new(id, data).spec_id() == id,
            Self::spec_new(id, data).spec_data() == data,
    {
    }
}

impl<T: Default> Default for DataNode<T> {
    /// Creates the node with identifier zero and the default payload.
    fn default() -> (node: Self)
        ensures
            node.identifier() == 0,
    {
        DataNode { id: 0, data: T::default() }
    }
}

impl<T: Clone> Node for DataNode<T> {
    type Data = T;

    open spec fn holds_data() -> bool {
        true
    }

    closed spec fn spec_new(id: u32, data: Option<T>) -> Self {
        DataNode { id, data: data->0 }
    }

    open spec fn spec_id(&self) -> u32 {
        self.identifier()
    }

    open spec fn spec_data(&self) -> Option<T> {
        Some(self.payload())
    }

    /// Creates a node from its identifier and its payload, which must be
    /// given.
    fn new(id: u32, data: Option<T>) -> (node: Self) {
        DataNode { id, data: data.unwrap() }
    }

    fn id(&self) -> (id: u32) {
        self.id
    }

    fn data(&self) -> (data: Option<&T>) {
        Some(&self.data)
    }

    /// Replaces the payload by a clone of `data`.
    fn set_data(&mut self, data: &T)
        ensures
            cloned(*data, final(self).payload()),
    {
        self.data = data.clone();
    }
}

} // verus!
