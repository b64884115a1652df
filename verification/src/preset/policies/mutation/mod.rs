//! Policies that guard what the graph already holds.
pub mod deny_node_override;

pub use deny_node_override::DenyNodeOverride;
