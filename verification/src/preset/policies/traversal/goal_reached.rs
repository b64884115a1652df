use vstd::prelude::*;

use crate::policy::{Policy, Terminate};

verus! {

/// Holds at the goal node and nowhere else.
#[derive(Debug)]
pub struct GoalReached {
    /// The identifier of the goal node.
    pub goal: u32,
}

impl GoalReached {
    /// Creates the policy for `goal`.
    pub fn new(goal: u32) -> (policy: Self)
        ensures
            policy.goal == goal,
    {
        GoalReached { goal }
    }
}

impl Default for GoalReached {
    /// Creates the policy for the goal with identifier zero.
    fn default() -> (policy: Self)
        ensures
            policy.goal == 0,
    {
        GoalReached { goal: 0 }
    }
}

impl<Ctx> Policy<u32, Ctx> for GoalReached {
    open spec fn complies(&self, node_id: &u32, context: &Ctx) -> bool {
        *node_id == self.goal
    }

    fn is_compliant(&self, node_id: &u32, _context: &Ctx) -> (compliant: bool) {
        *node_id == self.goal
    }
}

impl Terminate for GoalReached {
    open spec fn halts(&self, context: Option<u32>) -> bool {
        context == Some(self.goal)
    }

    fn stop(&self, context: Option<u32>) -> (stop: bool) {
        match context {
            Some(node_id) => node_id == self.goal,
            None => false,
        }
    }
}

} // verus!
