//! Admission checks that keep a record of what they admit.
pub mod auth_budget;
pub mod auth_unique;
pub mod auth_value;

pub use auth_budget::AuthBudget;
pub use auth_unique::{UniqueNode, UniqueUnweightedEdge};
pub use auth_value::{AllowNodeValue, AllowWeightAbove, AllowWeightUnder};
