//! Building a graph from a sampler and two admission policies.
pub mod graph_builder;

pub use graph_builder::GraphBuilder;
