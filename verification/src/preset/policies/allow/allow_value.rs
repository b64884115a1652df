//! The policies on values, for callers that look for them here.
pub use crate::preset::policies::value::allow_node_value::AllowNodeValue;
pub use crate::preset::policies::value::allow_weight_above::AllowWeightAbove;
pub use crate::preset::policies::value::allow_weight_below::AllowWeightUnder;
