use vstd::prelude::*;

verus! {

/// Bookkeeping that records from which node each node was reached.
///
/// `spec_parent` is what contracts speak of. Its body says nothing, so that an
/// implementation outside verified code needs to write `get_parent` only.
pub trait TrackParent {
    /// The node from which `node_id` was reached, if any is on record.
    open spec fn spec_parent(&self, node_id: u32) -> Option<u32> {
        arbitrary()
    }

    /// Returns the node from which `node_id` was reached, if any is on
    /// record.
    fn get_parent(&self, node_id: u32) -> (parent: Option<u32>)
        ensures
            parent == self.spec_parent(node_id),
    ;
}

} // verus!
