//! Ready-made policies.
pub mod allow;
pub mod authorize;
pub mod budget;
pub mod mutation;
pub mod structural;
pub mod traversal;
pub mod value;
