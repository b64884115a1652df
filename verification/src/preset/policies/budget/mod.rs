//! Policies that cap the size of the graph.
pub mod edge_budget;
pub mod node_budget;

pub use edge_budget::EdgeBudget;
pub use node_budget::NodeBudget;
