//! Ready-made edge types.
pub mod unweighted_edge;
pub mod weighted_edge;

pub use unweighted_edge::UnweightedEdge;
pub use weighted_edge::WeightedEdge;
