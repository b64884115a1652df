//! The policy interfaces, for callers that look for them here.
pub use crate::policy::{Authorize, Terminate};
