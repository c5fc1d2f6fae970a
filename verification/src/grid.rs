//! Grid dimensions, the errors of grid construction, and the mathematical
//! model of a toroidal grid in which the contracts of this crate are stated.

use crate::cell::{rule, Cell};
use vstd::arithmetic::div_mod::{
    lemma_fundamental_div_mod, lemma_fundamental_div_mod_converse,
    lemma_mod_add_multiples_vanish, lemma_mod_bound,
};
use vstd::prelude::*;

verus! {

/// Why a grid could not be built.
#[derive(Clone, Copy, Debug, PartialEq, Eq, Structural)]
pub enum GridError {
    /// The width or the height is zero.
    InvalidDimensions,
    /// The number of cells is not width × height.
    InvalidGridSize,
}

/// A toroidal grid as a mathematical value: its extent and its cells in
/// row-major order.
pub struct Grid {
    pub width: nat,
    pub height: nat,
    pub cells: Seq<Cell>,
}

impl Grid {
    /// Both dimensions are positive and there is exactly one cell per position.
    pub open spec fn wf(self) -> bool {
        &&& self.width >= 1
        &&& self.height >= 1
        &&& self.cells.len() == self.width * self.height
    }

    /// The position in `cells` of the cell at (`row`, `col`). Any integers are
    /// accepted: the row is reduced modulo the height and the column modulo
    /// the width, so opposite edges of the grid are adjacent.
    pub open spec fn index(self, row: int, col: int) -> int {
        (row % (self.height as int)) * self.width + (col % (self.width as int))
    }

    /// The cell at (`row`, `col`), wrapping around the edges.
    pub open spec fn cell(self, row: int, col: int) -> Cell {
        self.cells[self.index(row, col)]
    }

    /// The number of live cells among the eight neighbours of (`row`, `col`).
    /// Neighbours are taken with multiplicity: on a grid narrower or lower
    /// than three cells one cell can be a neighbour several times over.
    pub open spec fn live_neighbors(self, row: int, col: int) -> int {
        self.cell(row - 1, col - 1).count() + self.cell(row - 1, col).count() + self.cell(
            row - 1,
            col + 1,
        ).count() + self.cell(row, col - 1).count() + self.cell(row, col + 1).count() + self.cell(
            row + 1,
            col - 1,
        ).count() + self.cell(row + 1, col).count() + self.cell(row + 1, col + 1).count()
    }

    /// The live-neighbour count of the cell stored at position `i`.
    pub open spec fn live_neighbors_at(self, i: int) -> int {
        self.live_neighbors(i / (self.width as int), i % (self.width as int))
    }

    /// The state, one generation on, of the cell stored at position `i`.
    pub open spec fn next_cell(self, i: int) -> Cell {
        rule(self.cells[i], self.live_neighbors_at(i))
    }

    /// The grid one generation on: every cell advanced by Conway's rule, each
    /// from the neighbour count it has in `self`.
    pub open spec fn step(self) -> Grid {
        Grid {
            width: self.width,
            height: self.height,
            cells: Seq::new(self.cells.len(), |i: int| self.next_cell(i)),
        }
    }

    /// Every wrapped position lies inside the cell sequence.
    pub proof fn lemma_index_in_range(self, row: int, col: int)
        requires
            self.wf(),
        ensures
            0 <= self.index(row, col) < self.cells.len(),
    {
        let w = self.width as int;
        let h = self.height as int;
        let r = row % h;
        let c = col % w;
        lemma_mod_bound(row, h);
        lemma_mod_bound(col, w);
        lemma_row_major_bound(w, h, r, c);
    }

    /// Moving a whole height down or a whole width right arrives at the same
    /// cell.
    pub proof fn lemma_index_periodic(self, row: int, col: int)
        requires
            self.wf(),
        ensures
            self.index(row + self.height, col) == self.index(row, col),
            self.index(row, col + self.width) == self.index(row, col),
    {
        lemma_mod_add_multiples_vanish(row, self.height as int);
        lemma_mod_add_multiples_vanish(col, self.width as int);
    }
}

/// In a row-major layout of `h` rows of `w` cells, the cell in row `r` and
/// column `c` is stored inside the first `w * h` positions.
pub proof fn lemma_row_major_bound(w: int, h: int, r: int, c: int)
    requires
        0 <= r < h,
        0 <= c < w,
    ensures
        0 <= r * w + c < w * h,
{
    assert(r * w + c < w * h && 0 <= r * w) by (nonlinear_arith)
        requires
            0 <= r,
            r + 1 <= h,
            0 <= c < w,
    {
        assert((r + 1) * w <= h * w);
    }
}

/// The product of two 32-bit numbers fits in 64 bits.
proof fn lemma_product_fits_u64(a: u32, b: u32)
    ensures
        0 <= a * b <= u64::MAX,
{
    assert(0 <= a * b <= 0xffff_ffff * 0xffff_ffff) by (nonlinear_arith)
        requires
            0 <= a <= 0xffff_ffff,
            0 <= b <= 0xffff_ffff,
    ;
}

/// The extent of a grid. Both dimensions are at least 1.
#[derive(Clone, Copy, Debug, PartialEq, Eq)]
pub struct Dims {
    width: u32,
    height: u32,
}

impl Dims {
    /// Both dimensions are at least 1.
    #[verifier::type_invariant]
    pub open spec fn wf(self) -> bool {
        self.width() >= 1 && self.height() >= 1
    }

    pub closed spec fn spec_width(&self) -> u32 {
        self.width
    }

    pub closed spec fn spec_height(&self) -> u32 {
        self.height
    }

    /// The number of cells of a grid of this extent.
    pub open spec fn cell_count(self) -> nat {
        (self.width() * self.height()) as nat
    }

    /// The grid of this extent that holds `cells`.
    pub open spec fn grid(self, cells: Seq<Cell>) -> Grid {
        Grid { width: self.width() as nat, height: self.height() as nat, cells }
    }

    /// Dimensions of `width` columns and `height` rows. A dimension of zero
    /// is refused.
    pub fn new(width: u32, height: u32) -> (r: Result<Dims, GridError>)
        ensures
            match r {
                Ok(dims) => width >= 1 && height >= 1 && dims.width() == width && dims.height()
                    == height,
                Err(e) => e == GridError::InvalidDimensions && (width == 0 || height == 0),
            },
    {
        if width == 0 || height == 0 {
            Err(GridError::InvalidDimensions)
        } else {
            Ok(Dims { width, height })
        }
    }

    /// The number of columns.
    #[verifier::when_used_as_spec(spec_width)]
    pub fn width(&self) -> (w: u32)
        ensures
            w == self.width(),
            w >= 1,
    {
        proof {
            use_type_invariant(self);
        }
        self.width
    }

    /// The number of rows.
    #[verifier::when_used_as_spec(spec_height)]
    pub fn height(&self) -> (h: u32)
        ensures
            h == self.height(),
            h >= 1,
    {
        proof {
            use_type_invariant(self);
        }
        self.height
    }

    /// Whether a sequence of `len` cells fills a grid of this extent exactly.
    pub fn fits(&self, len: usize) -> (b: bool)
        ensures
            b == (len == self.cell_count()),
            self.width() >= 1,
            self.height() >= 1,
    {
        proof {
            use_type_invariant(self);
            lemma_product_fits_u64(self.width, self.height);
        }
        let count: u64 = self.width as u64 * self.height as u64;
        len as u64 == count
    }
}

/// The position on a ring of `n` positions that `i` wraps to: `i` modulo
/// `n`, which is never negative.
pub(crate) fn wrap(i: i64, n: u32) -> (r: u32)
    requires
        n >= 1,
    ensures
        r == (i as int) % (n as int),
        r < n,
{
    if i >= 0 {
        (i as u64 % n as u64) as u32
    } else {
        let back: u64 = (-(i + 1)) as u64;
        let r = (n as u64 - 1 - back % n as u64) as u32;
        proof {
            let q = (back as int) / (n as int);
            lemma_fundamental_div_mod(back as int, n as int);
            assert(i == (-(q + 1)) * n + r) by (nonlinear_arith)
                requires
                    back == n * q + (n - 1 - r),
                    i == -1 - back,
            ;
            lemma_fundamental_div_mod_converse(i as int, n as int, -(q + 1), r as int);
        }
        r
    }
}

/// The position of the cell at (`row`, `column`) in a row-major grid of
/// `width` columns.
pub fn get_index(width: u32, row: u32, column: u32) -> (idx: usize)
    requires
        row * width + column <= usize::MAX,
    ensures
        idx == row * width + column,
{
    assert(0 <= row * width) by (nonlinear_arith);
    row as usize * width as usize + column as usize
}

} // verus!
