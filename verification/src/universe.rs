//! The universe: a grid that lives on from one generation to the next.

use crate::cell::{next_state, Cell};
use crate::grid::{get_index, lemma_row_major_bound, wrap, Dims, Grid, GridError};
use crate::neighbors::live_neighbor_count_all;
use crate::render::render_cells;
use vstd::prelude::*;

verus! {

/// The default seed: the cell at position `i` starts alive exactly when
/// `i` is even or a multiple of 7.
pub open spec fn seed(i: int) -> Cell {
    if i % 2 == 0 || i % 7 == 0 {
        Cell::Alive
    } else {
        Cell::Dead
    }
}

/// The grid of the given extent filled by the default seed.
pub open spec fn seeded_grid(width: nat, height: nat) -> Grid {
    Grid { width, height, cells: Seq::new(width * height, |i: int| seed(i)) }
}

/// A grid of fixed extent together with its current generation of cells.
#[derive(Debug)]
pub struct Universe {
    dims: Dims,
    cells: Vec<Cell>,
}

impl View for Universe {
    type V = Grid;

    closed spec fn view(&self) -> Grid {
        self.dims.grid(self.cells@)
    }
}

/// The first `count` cells of the default seed.
fn seed_cells(count: usize) -> (cells: Vec<Cell>)
    ensures
        cells@ == Seq::new(count as nat, |i: int| seed(i)),
{
    let mut cells: Vec<Cell> = Vec::with_capacity(count);
    for i in 0..count
        invariant
            cells.len() == i,
            forall|k: int| 0 <= k < i ==> cells[k] == seed(k),
    {
        if i % 2 == 0 || i % 7 == 0 {
            cells.push(Cell::Alive);
        } else {
            cells.push(Cell::Dead);
        }
    }
    cells
}

/// The cells of the generation after the current one of `uni`. The neighbour
/// counts are taken afresh from the current cells, and the new cells are
/// written to a buffer of their own.
pub fn next_universe(uni: &Universe) -> (next: Vec<Cell>)
    ensures
        next@ == uni@.step().cells,
{
    proof {
        use_type_invariant(uni);
    }
    let dims = &uni.dims;
    let height = dims.height();
    let width = dims.width();
    let alive_neighbours = live_neighbor_count_all(dims, &uni.cells);
    let ghost grid = uni@;
    let mut next: Vec<Cell> = Vec::with_capacity(uni.cells.len());
    assert(0 * width == 0 && height * width == width * height) by (nonlinear_arith);
    for row in 0..height
        invariant
            height == dims.height(),
            width == dims.width(),
            grid == dims.grid(uni.cells@),
            uni.cells.len() == dims.cell_count(),
            height * width == width * height,
            alive_neighbours.len() == uni.cells.len(),
            forall|i: int|
                0 <= i < alive_neighbours.len() ==> alive_neighbours[i]
                    == #[trigger] grid.live_neighbors_at(i),
            next.len() == row * width,
            forall|i: int| 0 <= i < next.len() ==> next[i] == #[trigger] grid.next_cell(i),
    {
        for col in 0..width
            invariant
                height == dims.height(),
                width == dims.width(),
                row < height,
                grid == dims.grid(uni.cells@),
                uni.cells.len() == dims.cell_count(),
                alive_neighbours.len() == uni.cells.len(),
                forall|i: int|
                    0 <= i < alive_neighbours.len() ==> alive_neighbours[i]
                        == #[trigger] grid.live_neighbors_at(i),
                next.len() == row * width + col,
                forall|i: int| 0 <= i < next.len() ==> next[i] == #[trigger] grid.next_cell(i),
        {
            proof {
                lemma_row_major_bound(width as int, height as int, row as int, col as int);
            }
            let idx = get_index(width, row, col);
            let cell = uni.cells[idx];
            let live_neighbors = alive_neighbours[idx];
            let next_cell = next_state(cell, live_neighbors);
            next.push(next_cell);
        }
        assert(row * width + width == (row + 1) * width) by (nonlinear_arith);
    }
    next
}

impl Universe {
    #[verifier::type_invariant]
    closed spec fn inv(self) -> bool {
        self.dims.wf() && self.cells.len() == self.dims.cell_count()
    }

    /// Advances the universe by one generation. Every cell of the new
    /// generation follows from the old one alone.
    pub fn tick(&mut self)
        ensures
            final(self)@ == old(self)@.step(),
    {
        let next = next_universe(self);
        proof {
            use_type_invariant(&*self);
        }
        self.cells = next;
    }

    /// The default universe: 64 columns by 64 rows, filled by the default
    /// seed.
    pub fn new() -> (uni: Universe)
        ensures
            uni@ == seeded_grid(64, 64),
    {
        let width: u32 = 64;
        let height: u32 = 64;
        let dims = Dims::new(width, height).unwrap();
        let cells = seed_cells(64 * 64);
        Universe { dims, cells }
    }

    /// A universe of `width` columns by `height` rows, filled by the
    /// default seed. A dimension of zero is refused.
    pub fn with_dims(width: u32, height: u32) -> (r: Result<Universe, GridError>)
        requires
            width * height <= usize::MAX,
        ensures
            match r {
                Ok(uni) => width >= 1 && height >= 1 && uni@ == seeded_grid(
                    width as nat,
                    height as nat,
                ),
                Err(e) => e == GridError::InvalidDimensions && (width == 0 || height == 0),
            },
    {
        match Dims::new(width, height) {
            Ok(dims) => {
                assert(0 <= width * height) by (nonlinear_arith);
                let count: usize = width as usize * height as usize;
                let cells = seed_cells(count);
                Ok(Universe { dims, cells })
            },
            Err(e) => Err(e),
        }
    }

    /// The universe of extent `dims` whose first generation is `cells`, given
    /// in row-major order. Fails when `cells` does not fill the extent
    /// exactly.
    pub fn from_cells(dims: Dims, cells: Vec<Cell>) -> (r: Result<Universe, GridError>)
        ensures
            match r {
                Ok(uni) => cells.len() == dims.cell_count() && uni@ == dims.grid(cells@),
                Err(e) => e == GridError::InvalidGridSize && cells.len() != dims.cell_count(),
            },
    {
        proof {
            use_type_invariant(&dims);
        }
        if dims.fits(cells.len()) {
            Ok(Universe { dims, cells })
        } else {
            Err(GridError::InvalidGridSize)
        }
    }

    /// The number of columns.
    pub fn width(&self) -> (w: u32)
        ensures
            w == self@.width,
    {
        self.dims.width()
    }

    /// The number of rows.
    pub fn height(&self) -> (h: u32)
        ensures
            h == self@.height,
    {
        self.dims.height()
    }

    /// The cells of the current generation in row-major order. The borrow
    /// ends before the next `tick`, so a view never outlives its generation.
    pub fn cells(&self) -> (view: &[Cell])
        ensures
            view@ == self@.cells,
            self@.wf(),
    {
        proof {
            use_type_invariant(self);
        }
        self.cells.as_slice()
    }

    /// The cell at (`row`, `column`) of the current generation. Any position
    /// is accepted: it is wrapped around the edges into the grid.
    pub fn cell(&self, row: i64, column: i64) -> (cell: Cell)
        ensures
            cell == self@.cell(row as int, column as int),
    {
        proof {
            use_type_invariant(self);
        }
        let r = wrap(row, self.dims.height());
        let c = wrap(column, self.dims.width());
        proof {
            lemma_row_major_bound(
                self.dims.width() as int,
                self.dims.height() as int,
                r as int,
                c as int,
            );
        }
        self.cells[get_index(self.dims.width(), r, c)]
    }

    /// The live-neighbour count of every cell of the current generation, in
    /// the order of the cells.
    pub fn alive_neighbours(&self) -> (counts: Vec<u8>)
        ensures
            counts.len() == self@.cells.len(),
            forall|i: int|
                0 <= i < counts.len() ==> counts[i] == #[trigger] self@.live_neighbors_at(i),
            forall|i: int| 0 <= i < counts.len() ==> #[trigger] counts[i] <= 8,
    {
        proof {
            use_type_invariant(self);
        }
        live_neighbor_count_all(&self.dims, &self.cells)
    }

    /// The current generation as text: one line per row, top to bottom, each
    /// cell as its glyph and each row ended by a newline.
    pub fn render(&self) -> (text: String)
        ensures
            text@ == self@.rendered(),
    {
        proof {
            use_type_invariant(self);
        }
        render_cells(&self.dims, &self.cells)
    }
}

} // verus!
