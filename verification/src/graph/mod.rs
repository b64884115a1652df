//! The graph store, the contracts of what it holds, and the traversal that it
//! hosts.
pub mod edge;
pub mod graph;
pub mod lookup;
pub mod node;
pub mod traversal;

pub use edge::{Cost, Edge};
pub use graph::Graph;
pub use node::Node;
