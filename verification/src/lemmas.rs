//! Facts that hold of every grid: the bounds of a neighbour count, the
//! wrap-around of the torus, and the stability of the empty grid.

use crate::cell::Cell;
use crate::grid::Grid;
use vstd::arithmetic::div_mod::{lemma_mod_self_0, lemma_small_mod};
use vstd::prelude::*;

verus! {

impl Grid {
    /// A cell has at least zero and at most eight live neighbours.
    pub proof fn lemma_live_neighbors_bounds(self, row: int, col: int)
        ensures
            0 <= self.live_neighbors(row, col) <= 8,
    {
    }

    /// The cell at a wrapped position is the same one a whole height further
    /// down and a whole width further right.
    pub proof fn lemma_cell_periodic(self, row: int, col: int)
        requires
            self.wf(),
        ensures
            self.cell(row + self.height, col) == self.cell(row, col),
            self.cell(row, col + self.width) == self.cell(row, col),
    {
        self.lemma_index_periodic(row, col);
    }

    /// Neighbour counts repeat with the period of the grid in both
    /// directions.
    pub proof fn lemma_live_neighbors_periodic(self, row: int, col: int)
        requires
            self.wf(),
        ensures
            self.live_neighbors(row + self.height, col) == self.live_neighbors(row, col),
            self.live_neighbors(row, col + self.width) == self.live_neighbors(row, col),
    {
        self.lemma_cell_periodic(row - 1, col - 1);
        self.lemma_cell_periodic(row - 1, col);
        self.lemma_cell_periodic(row - 1, col + 1);
        self.lemma_cell_periodic(row, col - 1);
        self.lemma_cell_periodic(row, col + 1);
        self.lemma_cell_periodic(row + 1, col - 1);
        self.lemma_cell_periodic(row + 1, col);
        self.lemma_cell_periodic(row + 1, col + 1);
    }

    /// A live cell is counted by each of its eight neighbours: whichever way
    /// one steps from it, by at most one row and one column and not by zero
    /// both, the cell arrived at has a live neighbour.
    pub proof fn lemma_live_cell_is_counted(self, row: int, col: int, drow: int, dcol: int)
        requires
            -1 <= drow <= 1,
            -1 <= dcol <= 1,
            drow != 0 || dcol != 0,
            self.cell(row, col) == Cell::Alive,
        ensures
            self.live_neighbors(row + drow, col + dcol) >= 1,
    {
    }

    /// The torus has no edge: a live cell in the top left corner is counted
    /// by the cells of the bottom row and of the rightmost column that touch
    /// it across the edges, as by its neighbours inside the grid.
    pub proof fn lemma_corner_wraps(self)
        requires
            self.wf(),
            self.cells[0] == Cell::Alive,
        ensures
            self.live_neighbors(self.height - 1, self.width - 1) >= 1,
            self.live_neighbors(self.height - 1, 0) >= 1,
            self.live_neighbors(self.height - 1, 1) >= 1,
            self.live_neighbors(0, self.width - 1) >= 1,
            self.live_neighbors(0, 1) >= 1,
            self.live_neighbors(1, self.width - 1) >= 1,
            self.live_neighbors(1, 0) >= 1,
            self.live_neighbors(1, 1) >= 1,
    {
        let h = self.height as int;
        let w = self.width as int;
        lemma_small_mod(0, self.height);
        lemma_small_mod(0, self.width);
        lemma_mod_self_0(h);
        lemma_mod_self_0(w);
        assert(0 * w == 0);
        assert(self.cell(0, 0) == Cell::Alive);
    }

    /// The grid with the cell at (`row`, `col`), wrapped, set to `cell`.
    pub open spec fn with_cell(self, row: int, col: int, cell: Cell) -> Grid {
        Grid {
            width: self.width,
            height: self.height,
            cells: self.cells.update(self.index(row, col), cell),
        }
    }

    /// Bringing a dead cell to life raises the neighbour count of each of its
    /// eight neighbours, across the edges as inside the grid.
    pub proof fn lemma_birth_raises_counts(self, row: int, col: int, drow: int, dcol: int)
        requires
            self.wf(),
            self.cell(row, col) == Cell::Dead,
            -1 <= drow <= 1,
            -1 <= dcol <= 1,
            drow != 0 || dcol != 0,
        ensures
            self.with_cell(row, col, Cell::Alive).live_neighbors(row + drow, col + dcol)
                > self.live_neighbors(row + drow, col + dcol),
    {
        let born = self.with_cell(row, col, Cell::Alive);
        let r = row + drow;
        let c = col + dcol;
        self.lemma_index_in_range(row, col);
        assert forall|i: int, j: int| born.cell(i, j).count() >= self.cell(i, j).count() by {
            self.lemma_index_in_range(i, j);
        }
        assert(born.cell(r - drow, c - dcol).count() > self.cell(r - drow, c - dcol).count());
    }

    /// A generation keeps the extent of the grid and the number of its cells.
    pub proof fn lemma_step_wf(self)
        requires
            self.wf(),
        ensures
            self.step().wf(),
            self.step().width == self.width,
            self.step().height == self.height,
    {
    }

    /// A grid without a live cell stays as it is.
    pub proof fn lemma_dead_grid_is_stable(self)
        requires
            self.wf(),
            forall|i: int| 0 <= i < self.cells.len() ==> self.cells[i] == Cell::Dead,
        ensures
            self.step() == self,
    {
        assert forall|i: int| 0 <= i < self.cells.len() implies self.next_cell(i)
            == self.cells[i] by {
            let row = i / (self.width as int);
            let col = i % (self.width as int);
            self.lemma_index_in_range(row - 1, col - 1);
            self.lemma_index_in_range(row - 1, col);
            self.lemma_index_in_range(row - 1, col + 1);
            self.lemma_index_in_range(row, col - 1);
            self.lemma_index_in_range(row, col + 1);
            self.lemma_index_in_range(row + 1, col - 1);
            self.lemma_index_in_range(row + 1, col);
            self.lemma_index_in_range(row + 1, col + 1);
            assert(self.live_neighbors(row, col) == 0);
        }
        assert(self.step().cells =~= self.cells);
    }
}

} // verus!
