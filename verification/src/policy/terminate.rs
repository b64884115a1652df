use vstd::prelude::*;

use crate::policy::composite::{Composite, Not};

verus! {

/// A stop condition over the node that was visited last, if any.
///
/// `halts` is what contracts speak of. Its body says nothing, so that an
/// implementation outside verified code needs to write `stop` only.
pub trait Terminate {
    /// Whether the exploration stops at `context`.
    open spec fn halts(&self, context: Option<u32>) -> bool {
        arbitrary()
    }

    /// Decides whether the exploration stops at `context`.
    fn stop(&self, context: Option<u32>) -> (stop: bool)
        ensures
            stop == self.halts(context),
    ;
}

impl<L, R> Terminate for Composite<L, R> where L: Terminate, R: Terminate {
    open spec fn halts(&self, context: Option<u32>) -> bool {
        match self {
            Composite::And(left, right) => left.halts(context) && right.halts(context),
            Composite::Or(left, right) => left.halts(context) || right.halts(context),
        }
    }

    /// Asks the left operand, then the right one, each exactly once.
    fn stop(&self, context: Option<u32>) -> (stop: bool) {
        match self {
            Composite::And(left, right) => {
                let first: bool = left.stop(context);
                let second: bool = right.stop(context);
                first && second
            },
            Composite::Or(left, right) => {
                let first: bool = left.stop(context);
                let second: bool = right.stop(context);
                first || second
            },
        }
    }
}

impl<P> Terminate for Not<P> where P: Terminate {
    open spec fn halts(&self, context: Option<u32>) -> bool {
        !self.spec_inner().halts(context)
    }

    fn stop(&self, context: Option<u32>) -> (stop: bool) {
        !self.inner().stop(context)
    }
}

} // verus!
