//! A textual picture of a grid: one glyph per cell, one line per row.

use crate::cell::Cell;
use crate::grid::{get_index, lemma_row_major_bound, Dims, Grid, GridError};
use vstd::prelude::*;
use vstd::string::StringExecFns;

verus! {

/// The glyph that stands for a cell.
pub open spec fn glyph(cell: Cell) -> char {
    match cell {
        Cell::Dead => '◻',
        Cell::Alive => '◼',
    }
}

impl Grid {
    /// The glyphs of the first `n` cells of row `row`, left to right.
    pub open spec fn glyphs(self, row: int, n: nat) -> Seq<char> {
        Seq::new(n, |col: int| glyph(self.cells[row * self.width + col]))
    }

    /// The text of row `row`: the glyphs of its cells, then a newline.
    pub open spec fn line(self, row: int) -> Seq<char> {
        self.glyphs(row, self.width).push('\n')
    }

    /// The text of the first `n` rows, top to bottom.
    pub open spec fn lines(self, n: nat) -> Seq<char>
        decreases n,
    {
        if n == 0 {
            Seq::empty()
        } else {
            self.lines((n - 1) as nat) + self.line(n - 1)
        }
    }

    /// The text of the whole grid: every row in order, each ended by a
    /// newline.
    pub open spec fn rendered(self) -> Seq<char> {
        self.lines(self.height)
    }
}

/// The text of a grid whose cells fill its extent.
pub(crate) fn render_cells(dims: &Dims, cells: &Vec<Cell>) -> (text: String)
    requires
        cells.len() == dims.cell_count(),
    ensures
        text@ == dims.grid(cells@).rendered(),
{
    let height = dims.height();
    let width = dims.width();
    let ghost grid = dims.grid(cells@);
    let mut text = String::new();
    for row in 0..height
        invariant
            height == dims.height(),
            width == dims.width(),
            grid == dims.grid(cells@),
            cells.len() == dims.cell_count(),
            text@ == grid.lines(row as nat),
    {
        for col in 0..width
            invariant
                height == dims.height(),
                width == dims.width(),
                row < height,
                grid == dims.grid(cells@),
                cells.len() == dims.cell_count(),
                text@ == grid.lines(row as nat) + grid.glyphs(row as int, col as nat),
        {
            proof {
                lemma_row_major_bound(width as int, height as int, row as int, col as int);
                reveal_strlit("◻");
                reveal_strlit("◼");
            }
            let idx = get_index(width, row, col);
            match cells[idx] {
                Cell::Dead => text.append("◻"),
                Cell::Alive => text.append("◼"),
            }
            assert(grid.glyphs(row as int, (col + 1) as nat) == grid.glyphs(
                row as int,
                col as nat,
            ).push(glyph(cells@[idx as int])));
        }
        proof {
            reveal_strlit("\n");
        }
        text.append("\n");
    }
    text
}

/// Renders the grid of extent `dims` that holds `cells`: one line per row,
/// top to bottom, each cell as its glyph and each row ended by a newline.
/// Fails when `cells` does not fill the extent exactly.
pub fn render_grid(dims: &Dims, cells: &Vec<Cell>) -> (r: Result<String, GridError>)
    ensures
        match r {
            Ok(text) => cells.len() == dims.cell_count() && text@ == dims.grid(cells@).rendered(),
            Err(e) => e == GridError::InvalidGridSize && cells.len() != dims.cell_count(),
        },
{
    if dims.fits(cells.len()) {
        Ok(render_cells(dims, cells))
    } else {
        Err(GridError::InvalidGridSize)
    }
}

} // verus!
