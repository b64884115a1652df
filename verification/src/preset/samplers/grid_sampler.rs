use std::marker::PhantomData;
use vstd::prelude::*;

use crate::graph::edge::Edge;
use crate::graph::node::Node;
use crate::preset::DataNode;
use crate::preset::UnweightedEdge;
use crate::strategy::sampler::{settled, Sampler};

verus! {

/// Rows of cells; each cell holds the payload of a node.
pub type Grid2D<T> = Vec<Vec<T>>;

/// Samples a graph from a grid: one batch per cell, row by row, with the node
/// of that cell, which carries what the cell holds, and an edge to each
/// neighbour that lies inside the grid. The node of the cell in row `y` and
/// column `x` has the identifier `y * columns + x`, for the number of columns
/// of its row.
#[derive(Debug)]
pub struct Grid2DSampler<T> {
    current_x: i32,
    current_y: i32,
    cell_neighbors: Vec<(i32, i32)>,
    _phantom: PhantomData<T>,
}

/// The offsets, as rows and columns, to the four neighbours of a cell: north,
/// east, south, west.
pub open spec fn four_neighbors() -> Seq<(i32, i32)> {
    seq![(-1i32, 0i32), (0i32, 1i32), (1i32, 0i32), (0i32, -1i32)]
}

/// The offsets, as rows and columns, to the eight neighbours of a cell,
/// clockwise from north.
pub open spec fn eight_neighbors() -> Seq<(i32, i32)> {
    seq![
        (-1i32, 0i32),
        (-1i32, 1i32),
        (0i32, 1i32),
        (1i32, 1i32),
        (1i32, 0i32),
        (1i32, -1i32),
        (0i32, -1i32),
        (-1i32, -1i32),
    ]
}

/// Whether every offset leads to an adjacent cell.
pub open spec fn adjacent_offsets(neighbors: Seq<(i32, i32)>) -> bool {
    forall|k: int|
        0 <= k < neighbors.len() ==> -1 <= (#[trigger] neighbors[k]).0 <= 1 && -1 <= neighbors[k].1
            <= 1
}

/// The edges from the cell in row `y` and column `x` to those of its first
/// `n` neighbours that lie inside a grid of `rows` rows, where the row of the
/// cell has `columns` columns.
pub open spec fn grid_edges(
    neighbors: Seq<(i32, i32)>,
    n: nat,
    x: int,
    y: int,
    rows: int,
    columns: int,
) -> Seq<UnweightedEdge>
    decreases n,
{
    if n == 0 {
        Seq::empty()
    } else {
        let before = grid_edges(neighbors, (n - 1) as nat, x, y, rows, columns);
        let v = neighbors[n - 1];
        if 0 <= v.0 + y < rows && 0 <= v.1 + x < columns {
            before.push(
                UnweightedEdge::spec_new(
                    (y * columns + x) as u32,
                    ((v.0 + y) * columns + (v.1 + x)) as u32,
                    None,
                ),
            )
        } else {
            before
        }
    }
}

/// The number of cells in the rows of `grid` from row `y` on.
pub open spec fn cells_from<T>(grid: Seq<Vec<T>>, y: int) -> nat
    decreases grid.len() - y,
{
    if 0 <= y < grid.len() {
        grid[y]@.len() + cells_from(grid, y + 1)
    } else {
        0
    }
}

impl<T> Grid2DSampler<T> {
    /// The column of the next cell.
    pub closed spec fn x(&self) -> int {
        self.current_x as int
    }

    /// The row of the next cell.
    pub closed spec fn y(&self) -> int {
        self.current_y as int
    }

    /// The offsets to the neighbours of a cell, as rows and columns.
    pub closed spec fn neighbors(&self) -> Seq<(i32, i32)> {
        self.cell_neighbors@
    }

    /// Creates a sampler that connects each cell to its four neighbours.
    pub fn new() -> (sampler: Self)
        ensures
            sampler.x() == 0,
            sampler.y() == 0,
            sampler.neighbors() == four_neighbors(),
    {
        Self::with_connect_four()
    }

    /// Creates a sampler that connects each cell to its four neighbours:
    /// north, east, south, west.
    pub fn with_connect_four() -> (sampler: Self)
        ensures
            sampler.x() == 0,
            sampler.y() == 0,
            sampler.neighbors() == four_neighbors(),
    {
        let mut neighbors: Vec<(i32, i32)> = Vec::new();
        neighbors.push((-1, 0));  // N
        neighbors.push((0, 1));  // E
        neighbors.push((1, 0));  // S
        neighbors.push((0, -1));  // W
        assert(neighbors@ =~= four_neighbors());
        Self::with_connect(neighbors)
    }

    /// Creates a sampler that connects each cell to its eight neighbours,
    /// clockwise from north.
    pub fn with_connect_eight() -> (sampler: Self)
        ensures
            sampler.x() == 0,
            sampler.y() == 0,
            sampler.neighbors() == eight_neighbors(),
    {
        let mut neighbors: Vec<(i32, i32)> = Vec::new();
        neighbors.push((-1, 0));  // N
        neighbors.push((-1, 1));  // NE
        neighbors.push((0, 1));  // E
        neighbors.push((1, 1));  // SE
        neighbors.push((1, 0));  // S
        neighbors.push((1, -1));  // SW
        neighbors.push((0, -1));  // W
        neighbors.push((-1, -1));  // NW
        assert(neighbors@ =~= eight_neighbors());
        Self::with_connect(neighbors)
    }

    /// Creates a sampler at the first cell with the given offsets to the
    /// neighbours of a cell.
    fn with_connect(neighbors: Vec<(i32, i32)>) -> (sampler: Self)
        ensures
            sampler.x() == 0,
            sampler.y() == 0,
            sampler.neighbors() == neighbors@,
    {
        Grid2DSampler {
            current_x: 0,
            current_y: 0,
            cell_neighbors: neighbors,
            _phantom: PhantomData,
        }
    }

    /// Returns the column and the row of the next cell.
    pub fn position(&self) -> (at: (i32, i32))
        ensures
            at.0 == self.x(),
            at.1 == self.y(),
    {
        (self.current_x, self.current_y)
    }

    /// Returns the number of neighbours that a cell is connected to.
    pub fn connectivity(&self) -> (count: usize)
        ensures
            count == self.neighbors().len(),
    {
        self.cell_neighbors.len()
    }
}

impl<T: Clone + Copy> Grid2DSampler<T> {
    /// Returns whether the sampler can read `context`.
    pub fn can_read(&self, context: &Grid2D<T>) -> (readable: bool)
        ensures
            readable == self.reads(context),
    {
        if self.current_x < 0 || self.current_y < 0 {
            return false;
        }
        let mut k: usize = 0;
        while k < self.cell_neighbors.len()
            invariant
                k <= self.cell_neighbors.len(),
                adjacent_offsets(self.cell_neighbors@.take(k as int)),
            decreases self.cell_neighbors.len() - k,
        {
            let v: (i32, i32) = self.cell_neighbors[k];
            if v.0 < -1 || v.0 > 1 || v.1 < -1 || v.1 > 1 {
                assert(!adjacent_offsets(self.cell_neighbors@)) by {
                    assert(self.cell_neighbors@[k as int] == v);
                }
                return false;
            }
            k = k + 1;
            assert forall|h: int| 0 <= h < k implies -1 <= (#[trigger] self.cell_neighbors@.take(
                k as int,
            )[h]).0 <= 1 && -1 <= self.cell_neighbors@.take(k as int)[h].1 <= 1 by {
                if h < k - 1 {
                    assert(self.cell_neighbors@.take(k - 1)[h] == self.cell_neighbors@[h]);
                }
            }
        }
        assert(self.cell_neighbors@.take(k as int) =~= self.cell_neighbors@);
        let rows: usize = context.len();
        let mut r: usize = 0;
        while r < rows
            invariant
                r <= rows,
                rows == context@.len(),
                forall|h: int|
                    0 <= h < r ==> 0 < (#[trigger] context@[h])@.len() && context@.len()
                        * context@[h]@.len() <= i32::MAX,
            decreases rows - r,
        {
            let columns: usize = context[r].len();
            if columns == 0 || columns > i32::MAX as usize || rows > i32::MAX as usize {
                assert(!(0 < context@[r as int]@.len() && context@.len() * context@[r as int]@.len()
                    <= i32::MAX)) by (nonlinear_arith)
                    requires
                        columns == context@[r as int]@.len(),
                        rows == context@.len(),
                        rows >= 1,
                        columns == 0 || columns > i32::MAX || rows > i32::MAX,
                ;
                return false;
            }
            assert(rows * columns <= 0x7fff_ffff * 0x7fff_ffff) by (nonlinear_arith)
                requires
                    0 <= rows <= 0x7fff_ffff,
                    0 <= columns <= 0x7fff_ffff,
            ;
            if (rows as u64) * (columns as u64) > i32::MAX as u64 {
                return false;
            }
            r = r + 1;
        }
        let y: usize = self.current_y as usize;
        if y < rows {
            (self.current_x as usize) < context[y].len()
        } else {
            true
        }
    }
}

/// What a sampler over a grid yields is settled by the grid and the cell.
pub proof fn lemma_grid_settled<T: Clone + Copy>(sampler: Grid2DSampler<T>, grid: &Grid2D<T>)
    ensures
        settled(sampler, grid),
{
}

impl<T> Default for Grid2DSampler<T> {
    fn default() -> (sampler: Self)
        ensures
            sampler.x() == 0,
            sampler.y() == 0,
            sampler.neighbors() == four_neighbors(),
    {
        Self::new()
    }
}

/// A cell inside a grid has an identifier below the number of cells of a grid
/// of that many rows and columns.
proof fn lemma_cell_id_bounded(x: int, y: int, rows: int, columns: int)
    requires
        0 <= x < columns,
        0 <= y < rows,
    ensures
        0 <= y * columns,
        0 <= y * columns + x < rows * columns,
{
    assert(0 <= y * columns) by (nonlinear_arith)
        requires
            0 <= y,
            0 <= columns,
    ;
    assert(y * columns + columns <= rows * columns) by (nonlinear_arith)
        requires
            y + 1 <= rows,
            0 <= columns,
    ;
}

impl<T> Sampler<Grid2D<T>> for Grid2DSampler<T> where T: Clone + Copy {
    type Node = DataNode<T>;

    type Edge = UnweightedEdge;

    /// No row of the grid is empty, the identifiers of its cells fit, the
    /// offsets lead to adjacent cells, and the next cell lies inside its row.
    open spec fn reads(&self, context: &Grid2D<T>) -> bool {
        &&& forall|r: int|
            0 <= r < context@.len() ==> 0 < (#[trigger] context@[r])@.len() && context@.len()
                * context@[r]@.len() <= i32::MAX
        &&& adjacent_offsets(self.neighbors())
        &&& 0 <= self.x()
        &&& 0 <= self.y()
        &&& self.y() < context@.len() ==> self.x() < context@[self.y()]@.len()
    }

    open spec fn remaining(&self, context: &Grid2D<T>) -> nat {
        (cells_from(context@, self.y()) - self.x()) as nat
    }

    open spec fn yields(
        &self,
        context: &Grid2D<T>,
        batch: Option<(Seq<DataNode<T>>, Seq<UnweightedEdge>)>,
    ) -> bool {
        if self.y() < context@.len() {
            let columns = context@[self.y()]@.len() as int;
            batch == Some(
                (
                    seq![
                        DataNode::<T>::spec_new(
                            (self.y() * columns + self.x()) as u32,
                            Some(context@[self.y()]@[self.x()]),
                        ),
                    ],
                    grid_edges(
                        self.neighbors(),
                        self.neighbors().len(),
                        self.x(),
                        self.y(),
                        context@.len() as int,
                        columns,
                    ),
                ),
            )
        } else {
            batch is None
        }
    }

    open spec fn advanced(&self, context: &Grid2D<T>, after: &Self) -> bool {
        &&& after.neighbors() == self.neighbors()
        &&& if self.y() < context@.len() {
            if self.x() + 1 < context@[self.y()]@.len() {
                after.x() == self.x() + 1 && after.y() == self.y()
            } else {
                after.x() == 0 && after.y() == self.y() + 1
            }
        } else {
            after.x() == self.x() && after.y() == self.y()
        }
    }

    fn next(&mut self, context: &Grid2D<T>) -> (batch: Option<
        (Vec<DataNode<T>>, Vec<UnweightedEdge>),
    >) {
        let i: usize = self.current_y as usize;
        if i >= context.len() {
            return None;
        }
        let j: usize = self.current_x as usize;
        proof {
            let height = context@.len() as int;
            let width = context@[self.y()]@.len() as int;
            assert(0 < width && height * width <= i32::MAX);
            assert(height <= i32::MAX && width <= i32::MAX) by (nonlinear_arith)
                requires
                    1 <= height,
                    1 <= width,
                    height * width <= i32::MAX,
            ;
        }
        let rows: i32 = context.len() as i32;
        let columns: i32 = context[i].len() as i32;
        proof {
            lemma_cell_id_bounded(self.x(), self.y(), rows as int, columns as int);
        }
        let current_id: i32 = self.current_y * columns + self.current_x;
        let mut edges: Vec<UnweightedEdge> = Vec::new();
        let mut k: usize = 0;
        while k < self.cell_neighbors.len()
            invariant
                k <= self.cell_neighbors.len(),
                adjacent_offsets(self.cell_neighbors@),
                0 <= self.current_x < columns,
                0 <= self.current_y < rows,
                rows * columns <= i32::MAX,
                current_id == self.current_y * columns + self.current_x,
                0 <= current_id,
                edges@ == grid_edges(
                    self.cell_neighbors@,
                    k as nat,
                    self.current_x as int,
                    self.current_y as int,
                    rows as int,
                    columns as int,
                ),
            decreases self.cell_neighbors.len() - k,
        {
            let v: (i32, i32) = self.cell_neighbors[k];
            if v.0 + self.current_y >= 0 && v.0 + self.current_y < rows && v.1 + self.current_x >= 0
                && v.1 + self.current_x < columns {
                proof {
                    lemma_cell_id_bounded(
                        v.1 + self.current_x,
                        v.0 + self.current_y,
                        rows as int,
                        columns as int,
                    );
                }
                edges.push(
                    UnweightedEdge::new(
                        current_id as u32,
                        ((v.0 + self.current_y) * columns + (v.1 + self.current_x)) as u32,
                        None,
                    ),
                );
            }
            k = k + 1;
        }
        let mut nodes: Vec<DataNode<T>> = Vec::new();
        nodes.push(DataNode::new(current_id as u32, Some(context[i][j])));
        assert(nodes@ =~= seq![
            DataNode::<T>::spec_new(current_id as u32, Some(context@[i as int]@[j as int])),
        ]);
        self.current_x += 1;
        if self.current_x >= columns {
            self.current_x = 0;
            self.current_y += 1;
        }
        Some((nodes, edges))
    }
}

} // verus!
