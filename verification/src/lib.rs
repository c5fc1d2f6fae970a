//! Conway's Game of Life on a fixed-size toroidal grid.
//!
//! A [`Universe`] owns the extent of the grid and its current generation of
//! cells; [`Universe::tick`] replaces that generation by the next one. The
//! contracts are stated over [`grid::Grid`], the grid as a mathematical
//! value, whose `step` defines a generation: every cell advanced by
//! [`cell::rule`] from the number of live cells among its eight neighbours,
//! where the neighbours are found by wrapping rows and columns around the
//! edges.

pub mod cell;
pub mod grid;
pub mod lemmas;
pub mod neighbors;
pub mod render;
pub mod universe;

pub use cell::{next_state, Cell};
pub use grid::{get_index, Dims, GridError};
pub use neighbors::{live_neighbor_count, live_neighbor_count_all};
pub use render::render_grid;
pub use universe::{next_universe, Universe};
