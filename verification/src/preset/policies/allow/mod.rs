//! Admission policies that read the graph: uniqueness by what the graph
//! holds, and the policies on values and budgets.
pub mod allow_value;
pub mod auth_unique;

pub use crate::preset::policies::budget::{EdgeBudget, NodeBudget};
pub use allow_value::{AllowNodeValue, AllowWeightAbove, AllowWeightUnder};
pub use auth_unique::{UniqueEdge, UniqueNode};
