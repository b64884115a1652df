use vstd::prelude::*;

use crate::graph::node::Node;

verus! {

/// A node that is its identifier and nothing else.
pub struct EmptyNode {
    id: u32,
}

impl EmptyNode {
    /// A new node has the identifier it was created with, and no payload.
    pub proof fn lemma_new(id: u32, data: Option<()>)
        ensures
            Self::spec_new(id, data).spec_id() == id,
            Self::spec_new(id, data).spec_data() is None,
    {
    }
}

impl Node for EmptyNode {
    type Data = ();

    open spec fn holds_data() -> bool {
        false
    }

    closed spec fn spec_new(id: u32, data: Option<()>) -> Self {
        EmptyNode { id }
    }

    closed spec fn spec_id(&self) -> u32 {
        self.id
    }

    open spec fn spec_data(&self) -> Option<()> {
        None
    }

    fn new(id: u32, _data: Option<()>) -> (node: Self) {
        EmptyNode { id }
    }

    fn id(&self) -> (id: u32) {
        self.id
    }

    fn data(&self) -> (data: Option<&()>) {
        None
    }
}

} // verus!
