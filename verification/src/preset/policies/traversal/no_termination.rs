use vstd::prelude::*;

use crate::policy::{Policy, Terminate};

verus! {

/// Holds nowhere: a traversal under it runs until nothing is pending.
#[derive(Debug, Default)]
pub struct NoTermination;

impl<T> Policy<u32, T> for NoTermination {
    open spec fn complies(&self, node_id: &u32, context: &T) -> bool {
        false
    }

    fn is_compliant(&self, _node_id: &u32, _context: &T) -> (compliant: bool) {
        false
    }
}

impl Terminate for NoTermination {
    open spec fn halts(&self, context: Option<u32>) -> bool {
        false
    }

    fn stop(&self, _context: Option<u32>) -> (stop: bool) {
        false
    }
}

} // verus!
