//! Ready-made nodes, edges, policies, samplers and visitors.
pub mod edges;
pub mod nodes;
pub mod policies;
pub mod samplers;
pub mod visitors;

pub use edges::unweighted_edge::UnweightedEdge;
pub use edges::weighted_edge::WeightedEdge;
pub use nodes::data_node::DataNode;
pub use nodes::empty_node::EmptyNode;
