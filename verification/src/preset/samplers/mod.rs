//! Ready-made samplers, one per way of writing a graph down.
pub mod adjacency_list_sampler;
pub mod adjacency_sampler;
pub mod grid_sampler;
pub mod matrix_sampler;

pub use adjacency_list_sampler::AdjacencyListSampler;
pub use adjacency_sampler::{
    AdjacencyList, AdjacencyListWithData, AdjacencySampler, AdjacencyWithDataSampler,
    SimpleAdjacencySampler, WeightedAdjacencyList, WeightedAdjacencyListWithData,
    WeightedAdjacencySampler, WeightedAdjacencyWithDataSampler,
};
pub use grid_sampler::{Grid2D, Grid2DSampler};
pub use matrix_sampler::{
    BinaryMatrix, BinaryMatrixSampler, MatrixSampler, WeightedMatrix, WeightedMatrixSampler,
};
