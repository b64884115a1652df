//! The strategy interfaces, for callers that look for them here.
pub use crate::strategy::{Sampler, Visitor};
