//! The strategies that a caller plugs in: where candidates come from, and what
//! a traversal does with the nodes it reaches.
pub mod sampler;
pub mod visitor;

pub use sampler::Sampler;
pub use visitor::Visitor;
