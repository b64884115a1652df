//! Ready-made node types.
pub mod data_node;
pub mod empty_node;

pub use data_node::DataNode;
pub use empty_node::EmptyNode;
