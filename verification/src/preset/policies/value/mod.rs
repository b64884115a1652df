//! Policies that look at what an entity holds.
pub mod allow_all;
pub mod allow_node_value;
pub mod allow_weight_above;
pub mod allow_weight_below;
pub mod deny_all;
pub mod deny_node_value;

pub use allow_all::AllowAll;
pub use allow_node_value::AllowNodeValue;
pub use allow_weight_above::AllowWeightAbove;
pub use allow_weight_below::{AllowWeightBelow, AllowWeightUnder};
pub use deny_all::DenyAll;
pub use deny_node_value::DenyNodeValue;
