use vstd::prelude::*;

use crate::policy::Policy;
use crate::preset::visitors::count_visited::CountVisited;

verus! {

/// Holds while fewer nodes were opened than a budget allows.
pub struct OpeningBudget {
    /// The number of opened nodes at which the policy ceases to hold.
    pub max_opening: usize,
}

impl<T> Policy<u32, T> for OpeningBudget where T: CountVisited {
    open spec fn complies(&self, node_id: &u32, context: &T) -> bool {
        self.max_opening > context.spec_visited_count()
    }

    fn is_compliant(&self, _node_id: &u32, context: &T) -> (compliant: bool) {
        self.max_opening > context.visited_count()
    }
}

} // verus!
