use std::marker::PhantomData;
use vstd::prelude::*;

use crate::graph::edge::{Cost, Edge};
use crate::graph::node::Node;
use crate::preset::samplers::adjacency_sampler::{position_after, positions_left};
use crate::preset::{EmptyNode, UnweightedEdge, WeightedEdge};
use crate::strategy::sampler::{settled, Sampler};

verus! {

/// A square of cells that say whether the node of the row leads to the node
/// of the column.
pub type BinaryMatrix = Vec<Vec<bool>>;

/// A square of cells that hold the weight of the connection from the node of
/// the row to the node of the column, or nothing where there is none.
pub type WeightedMatrix = Vec<Vec<Option<Cost>>>;

/// The sampler over a binary matrix.
pub type BinaryMatrixSampler = MatrixSampler<EmptyNode, UnweightedEdge>;

/// The sampler over a weighted matrix.
pub type WeightedMatrixSampler = MatrixSampler<EmptyNode, WeightedEdge>;

/// Samples a graph from a matrix: one batch per row, with the node of that
/// row and an edge for each cell of the row that holds a connection, by
/// ascending column.
#[derive(Debug)]
pub struct MatrixSampler<N, E> {
    current_id: u32,
    _phantom: PhantomData<(N, E)>,
}

/// The number of columns that identifiers can name.
pub open spec fn column_space() -> nat {
    0x1_0000_0000
}

/// The edges that the first `n` cells of a row of a binary matrix stand for:
/// one from `from` to the column of each cell that holds `true`.
pub open spec fn binary_row_edges(from: u32, row: Seq<bool>, n: nat) -> Seq<UnweightedEdge>
    decreases n,
{
    if n == 0 {
        Seq::empty()
    } else {
        let before = binary_row_edges(from, row, (n - 1) as nat);
        if row[n - 1] {
            before.push(UnweightedEdge::spec_new(from, (n - 1) as u32, None))
        } else {
            before
        }
    }
}

/// The edges that the first `n` cells of a row of a weighted matrix stand
/// for: one from `from` to the column of each cell that holds a weight, at
/// that weight.
pub open spec fn weighted_row_edges(from: u32, row: Seq<Option<Cost>>, n: nat) -> Seq<WeightedEdge>
    decreases n,
{
    if n == 0 {
        Seq::empty()
    } else {
        let before = weighted_row_edges(from, row, (n - 1) as nat);
        match row[n - 1] {
            Some(weight) => before.push(
                WeightedEdge::spec_new(from, (n - 1) as u32, Some(weight)),
            ),
            None => before,
        }
    }
}

impl<N, E> MatrixSampler<N, E> {
    /// The row of the next batch.
    pub closed spec fn position(&self) -> u32 {
        self.current_id
    }

    /// Creates a sampler at the first row.
    pub fn new() -> (sampler: Self)
        ensures
            sampler.position() == 0,
    {
        MatrixSampler { current_id: 0, _phantom: PhantomData }
    }

    /// Returns the row of the next batch.
    pub fn current_id(&self) -> (position: u32)
        ensures
            position == self.position(),
    {
        self.current_id
    }
}

/// Returns whether a matrix has a row for each identifier at most, and no
/// row with more columns than identifiers can name.
pub fn fits_identifiers<T>(matrix: &Vec<Vec<T>>) -> (fits: bool)
    ensures
        fits == (matrix@.len() <= u32::MAX && forall|r: int|
            0 <= r < matrix@.len() ==> (#[trigger] matrix@[r])@.len() <= column_space()),
{
    if matrix.len() > u32::MAX as usize {
        return false;
    }
    let mut r: usize = 0;
    while r < matrix.len()
        invariant
            r <= matrix.len(),
            forall|k: int| 0 <= k < r ==> (#[trigger] matrix@[k])@.len() <= column_space(),
        decreases matrix.len() - r,
    {
        if matrix[r].len() as u64 > 0x1_0000_0000u64 {
            return false;
        }
        r = r + 1;
    }
    true
}

impl MatrixSampler<EmptyNode, UnweightedEdge> {
    /// Returns whether the sampler can read `context`.
    pub fn can_read(&self, context: &BinaryMatrix) -> (readable: bool)
        ensures
            readable == self.reads(context),
    {
        fits_identifiers(context)
    }
}

impl MatrixSampler<EmptyNode, WeightedEdge> {
    /// Returns whether the sampler can read `context`.
    pub fn can_read(&self, context: &WeightedMatrix) -> (readable: bool)
        ensures
            readable == self.reads(context),
    {
        fits_identifiers(context)
    }
}

/// What a sampler over a matrix yields is settled by the matrix and the
/// row.
pub proof fn lemma_matrix_settled(
    binary: MatrixSampler<EmptyNode, UnweightedEdge>,
    matrix: &BinaryMatrix,
    weighted: MatrixSampler<EmptyNode, WeightedEdge>,
    weighted_matrix: &WeightedMatrix,
)
    ensures
        settled(binary, matrix),
        settled(weighted, weighted_matrix),
{
}

impl<N, E> Default for MatrixSampler<N, E> {
    fn default() -> (sampler: Self)
        ensures
            sampler.position() == 0,
    {
        Self::new()
    }
}

impl Sampler<BinaryMatrix> for MatrixSampler<EmptyNode, UnweightedEdge> {
    type Node = EmptyNode;

    type Edge = UnweightedEdge;

    /// The matrix has a row for each identifier at most, and no row has more
    /// columns than identifiers can name.
    open spec fn reads(&self, context: &BinaryMatrix) -> bool {
        &&& context@.len() <= u32::MAX
        &&& forall|r: int|
            0 <= r < context@.len() ==> (#[trigger] context@[r])@.len() <= column_space()
    }

    open spec fn remaining(&self, context: &BinaryMatrix) -> nat {
        positions_left(self.position(), context@.len())
    }

    open spec fn yields(
        &self,
        context: &BinaryMatrix,
        batch: Option<(Seq<EmptyNode>, Seq<UnweightedEdge>)>,
    ) -> bool {
        if self.position() < context@.len() {
            let row = context@[self.position() as int]@;
            batch == Some(
                (
                    seq![EmptyNode::spec_new(self.position(), None)],
                    binary_row_edges(self.position(), row, row.len()),
                ),
            )
        } else {
            batch is None
        }
    }

    open spec fn advanced(&self, context: &BinaryMatrix, after: &Self) -> bool {
        after.position() == position_after(self.position(), context@.len())
    }

    fn next(&mut self, context: &BinaryMatrix) -> (batch: Option<
        (Vec<EmptyNode>, Vec<UnweightedEdge>),
    >) {
        let i: usize = self.current_id as usize;
        if i >= context.len() {
            return None;
        }
        let row: &Vec<bool> = &context[i];
        let mut edges: Vec<UnweightedEdge> = Vec::new();
        let mut j: usize = 0;
        while j < row.len()
            invariant
                j <= row.len(),
                row@.len() <= column_space(),
                edges@ == binary_row_edges(self.current_id, row@, j as nat),
            decreases row.len() - j,
        {
            if row[j] {
                edges.push(UnweightedEdge::new(self.current_id, j as u32, None));
            }
            j = j + 1;
        }
        let mut nodes: Vec<EmptyNode> = Vec::new();
        nodes.push(EmptyNode::new(self.current_id, None));
        assert(nodes@ =~= seq![EmptyNode::spec_new(self.current_id, None)]);
        self.current_id += 1;
        Some((nodes, edges))
    }
}

impl Sampler<WeightedMatrix> for MatrixSampler<EmptyNode, WeightedEdge> {
    type Node = EmptyNode;

    type Edge = WeightedEdge;

    /// The matrix has a row for each identifier at most, and no row has more
    /// columns than identifiers can name.
    open spec fn reads(&self, context: &WeightedMatrix) -> bool {
        &&& context@.len() <= u32::MAX
        &&& forall|r: int|
            0 <= r < context@.len() ==> (#[trigger] context@[r])@.len() <= column_space()
    }

    open spec fn remaining(&self, context: &WeightedMatrix) -> nat {
        positions_left(self.position(), context@.len())
    }

    open spec fn yields(
        &self,
        context: &WeightedMatrix,
        batch: Option<(Seq<EmptyNode>, Seq<WeightedEdge>)>,
    ) -> bool {
        if self.position() < context@.len() {
            let row = context@[self.position() as int]@;
            batch == Some(
                (
                    seq![EmptyNode::spec_new(self.position(), None)],
                    weighted_row_edges(self.position(), row, row.len()),
                ),
            )
        } else {
            batch is None
        }
    }

    open spec fn advanced(&self, context: &WeightedMatrix, after: &Self) -> bool {
        after.position() == position_after(self.position(), context@.len())
    }

    fn next(&mut self, context: &WeightedMatrix) -> (batch: Option<
        (Vec<EmptyNode>, Vec<WeightedEdge>),
    >) {
        let i: usize = self.current_id as usize;
        if i >= context.len() {
            return None;
        }
        let row: &Vec<Option<Cost>> = &context[i];
        let mut edges: Vec<WeightedEdge> = Vec::new();
        let mut j: usize = 0;
        while j < row.len()
            invariant
                j <= row.len(),
                row@.len() <= column_space(),
                edges@ == weighted_row_edges(self.current_id, row@, j as nat),
            decreases row.len() - j,
        {
            match row[j] {
                Some(weight) => {
                    edges.push(WeightedEdge::new(self.current_id, j as u32, Some(weight)));
                },
                None => {},
            }
            j = j + 1;
        }
        let mut nodes: Vec<EmptyNode> = Vec::new();
        nodes.push(EmptyNode::new(self.current_id, None));
        assert(nodes@ =~= seq![EmptyNode::spec_new(self.current_id, None)]);
        self.current_id += 1;
        Some((nodes, edges))
    }
}

} // verus!
