//! Ready-made visitors, and what policies can read from them.
pub mod count_visited;
pub mod simple_visitor;
pub mod track_parent;
pub mod weighted_visitor;

pub use count_visited::CountVisited;
pub use simple_visitor::SimpleVisitor;
pub use track_parent::TrackParent;
pub use weighted_visitor::WeightedVisitor;
