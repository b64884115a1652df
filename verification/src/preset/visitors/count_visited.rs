use vstd::prelude::*;

verus! {

/// Bookkeeping that counts the nodes it has opened.
///
/// `spec_visited_count` is what contracts speak of. Its body says nothing, so
/// that an implementation outside verified code needs to write
/// `visited_count` only.
pub trait CountVisited {
    /// The number of nodes on record.
    open spec fn spec_visited_count(&self) -> usize {
        arbitrary()
    }

    /// Returns the number of nodes on record.
    fn visited_count(&self) -> (count: usize)
        ensures
            count == self.spec_visited_count(),
    ;
}

} // verus!
