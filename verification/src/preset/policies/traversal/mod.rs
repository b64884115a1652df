//! Policies that end a traversal.
pub mod goal_reached;
pub mod no_termination;
pub mod opening_budget;
pub mod opening_exhausted;

pub use goal_reached::GoalReached;
pub use no_termination::NoTermination;
pub use opening_budget::OpeningBudget;
pub use opening_exhausted::OpeningExhausted;
