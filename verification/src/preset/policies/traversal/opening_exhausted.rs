use vstd::prelude::*;

use crate::policy::Policy;
use crate::preset::visitors::count_visited::CountVisited;

verus! {

/// Holds once as many nodes were opened as a budget allows.
pub struct OpeningExhausted {
    /// The number of opened nodes from which the policy holds.
    pub max_opening: usize,
}

impl OpeningExhausted {
    /// Creates the policy for a budget of `max_opening` opened nodes.
    pub fn new(max_opening: usize) -> (policy: Self)
        ensures
            policy.max_opening == max_opening,
    {
        OpeningExhausted { max_opening }
    }
}

impl<C> Policy<u32, C> for OpeningExhausted where C: CountVisited {
    open spec fn complies(&self, node_id: &u32, context: &C) -> bool {
        context.spec_visited_count() >= self.max_opening
    }

    fn is_compliant(&self, _node_id: &u32, context: &C) -> (compliant: bool) {
        context.visited_count() >= self.max_opening
    }
}

} // verus!
