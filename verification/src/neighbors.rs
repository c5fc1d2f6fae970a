//! Counting live neighbours on the torus.

use crate::cell::Cell;
use crate::grid::{get_index, lemma_row_major_bound, Dims};
use vstd::arithmetic::div_mod::{
    lemma_fundamental_div_mod_converse, lemma_mod_add_multiples_vanish,
};
use vstd::prelude::*;

verus! {

/// The position `delta` steps after `i` on a ring of `n` positions.
fn wrapped(i: u32, delta: u32, n: u32) -> (r: u32)
    requires
        n >= 1,
    ensures
        r == (i + delta) % (n as int),
        r < n,
{
    ((i as u64 + delta as u64) % (n as u64)) as u32
}

/// The numeric value of the cell at (`row`, `column`), both inside the grid.
fn value_at(dims: &Dims, cells: &Vec<Cell>, row: u32, column: u32) -> (v: u8)
    requires
        cells.len() == dims.cell_count(),
        row < dims.height(),
        column < dims.width(),
    ensures
        v == cells@[row * dims.width() + column].count(),
        v <= 1,
{
    proof {
        lemma_row_major_bound(
            dims.width() as int,
            dims.height() as int,
            row as int,
            column as int,
        );
    }
    let idx = get_index(dims.width(), row, column);
    cells[idx].value()
}

/// The number of live cells among the eight neighbours of the cell at
/// (`row`, `column`) on the torus. The position itself may lie anywhere: it
/// is wrapped into the grid like its neighbours.
pub fn live_neighbor_count(dims: &Dims, cells: &Vec<Cell>, row: u32, column: u32) -> (count: u8)
    requires
        cells.len() == dims.cell_count(),
    ensures
        count == dims.grid(cells@).live_neighbors(row as int, column as int),
        count <= 8,
{
    let height = dims.height();
    let width = dims.width();
    let north = wrapped(row, height - 1, height);
    let mid_row = wrapped(row, 0, height);
    let south = wrapped(row, 1, height);
    let west = wrapped(column, width - 1, width);
    let mid_col = wrapped(column, 0, width);
    let east = wrapped(column, 1, width);
    proof {
        lemma_mod_add_multiples_vanish(row - 1, height as int);
        lemma_mod_add_multiples_vanish(column - 1, width as int);
        assert(north == (row - 1) % (height as int));
        assert(west == (column - 1) % (width as int));
    }
    let above = value_at(dims, cells, north, west) + value_at(dims, cells, north, mid_col)
        + value_at(dims, cells, north, east);
    let beside = value_at(dims, cells, mid_row, west) + value_at(dims, cells, mid_row, east);
    let below = value_at(dims, cells, south, west) + value_at(dims, cells, south, mid_col)
        + value_at(dims, cells, south, east);
    above + beside + below
}

/// The live-neighbour count of every cell, in the order of the cells.
pub fn live_neighbor_count_all(dims: &Dims, cells: &Vec<Cell>) -> (counts: Vec<u8>)
    requires
        cells.len() == dims.cell_count(),
    ensures
        counts.len() == cells.len(),
        forall|i: int|
            0 <= i < counts.len() ==> counts[i] == #[trigger] dims.grid(cells@).live_neighbors_at(
                i,
            ),
        forall|i: int| 0 <= i < counts.len() ==> #[trigger] counts[i] <= 8,
{
    let height = dims.height();
    let width = dims.width();
    let ghost grid = dims.grid(cells@);
    let mut counts: Vec<u8> = Vec::with_capacity(cells.len());
    assert(0 * width == 0 && height * width == width * height) by (nonlinear_arith);
    for row in 0..height
        invariant
            height == dims.height(),
            width == dims.width(),
            width >= 1,
            grid == dims.grid(cells@),
            cells.len() == dims.cell_count(),
            height * width == width * height,
            counts.len() == row * width,
            forall|i: int| 0 <= i < counts.len() ==> counts[i] == #[trigger] grid.live_neighbors_at(i),
            forall|i: int| 0 <= i < counts.len() ==> #[trigger] counts[i] <= 8,
    {
        for col in 0..width
            invariant
                height == dims.height(),
                width == dims.width(),
                width >= 1,
                row < height,
                grid == dims.grid(cells@),
                cells.len() == dims.cell_count(),
                counts.len() == row * width + col,
                forall|i: int|
                    0 <= i < counts.len() ==> counts[i] == #[trigger] grid.live_neighbors_at(i),
                forall|i: int| 0 <= i < counts.len() ==> #[trigger] counts[i] <= 8,
        {
            let live_neighbors = live_neighbor_count(dims, cells, row, col);
            proof {
                lemma_fundamental_div_mod_converse(
                    row * width + col,
                    width as int,
                    row as int,
                    col as int,
                );
            }
            counts.push(live_neighbors);
        }
        assert(row * width + width == (row + 1) * width) by (nonlinear_arith);
    }
    counts
}

} // verus!
