//! A framework for assembling directed graphs from arbitrary sources and for
//! exploring them with interchangeable strategies.
//!
//! A [`builder::GraphBuilder`] pulls batches of candidate nodes and edges from a
//! [`strategy::Sampler`], filters them through admission policies and stores
//! what passes in a [`graph::Graph`]. [`graph::Graph::traverse`] then drives a
//! [`frontier::Frontier`], which fixes the order of exploration, and a
//! [`strategy::Visitor`], which owns the identity of the search.
//!
//! Costs and weights are whole numbers ([`graph::Cost`]).
pub mod builder;
pub mod frontier;
pub mod graph;
pub mod policies;
pub mod policy;
pub mod preset;
pub mod strategies;
pub mod strategy;
