//! The state of a single cell and the rule that advances it by one generation.

use vstd::prelude::*;

verus! {

/// One cell of the grid: either dead or alive.
#[derive(Clone, Copy, Debug, PartialEq, Eq, Structural)]
pub enum Cell {
    Dead,
    Alive,
}

impl Cell {
    /// What a cell adds to the neighbour count of each adjacent cell:
    /// 1 when alive, 0 when dead.
    pub open spec fn count(self) -> int {
        match self {
            Cell::Dead => 0,
            Cell::Alive => 1,
        }
    }

    /// The numeric encoding of the cell: 0 for `Dead`, 1 for `Alive`.
    pub fn value(self) -> (v: u8)
        ensures
            v == self.count(),
    {
        match self {
            Cell::Dead => 0,
            Cell::Alive => 1,
        }
    }
}

/// Conway's rule as a function of the current state and the number of live
/// neighbours: a live cell survives with two or three live neighbours, a dead
/// cell comes alive with exactly three, and every other cell is dead in the
/// next generation.
pub open spec fn rule(cell: Cell, live_neighbors: int) -> Cell {
    match cell {
        Cell::Alive => if live_neighbors == 2 || live_neighbors == 3 {
            Cell::Alive
        } else {
            Cell::Dead
        },
        Cell::Dead => if live_neighbors == 3 {
            Cell::Alive
        } else {
            Cell::Dead
        },
    }
}

/// The rule case by case: death by underpopulation, survival, death by
/// overpopulation, birth, and a dead cell staying dead.
pub proof fn lemma_rule_cases(cell: Cell, live_neighbors: int)
    ensures
        cell == Cell::Alive && live_neighbors < 2 ==> rule(cell, live_neighbors) == Cell::Dead,
        cell == Cell::Alive && (live_neighbors == 2 || live_neighbors == 3) ==> rule(
            cell,
            live_neighbors,
        ) == Cell::Alive,
        cell == Cell::Alive && live_neighbors > 3 ==> rule(cell, live_neighbors) == Cell::Dead,
        cell == Cell::Dead && live_neighbors == 3 ==> rule(cell, live_neighbors) == Cell::Alive,
        cell == Cell::Dead && live_neighbors != 3 ==> rule(cell, live_neighbors) == Cell::Dead,
{
}

/// The state of `cell` in the next generation, given how many of its eight
/// neighbours are alive now. Defined for every count, and the same for the
/// same cell and count every time.
pub fn next_state(cell: Cell, live_neighbors: u8) -> (next: Cell)
    ensures
        next == rule(cell, live_neighbors as int),
{
    match cell {
        Cell::Alive => if live_neighbors < 2 {
            Cell::Dead
        } else if live_neighbors <= 3 {
            Cell::Alive
        } else {
            Cell::Dead
        },
        Cell::Dead => if live_neighbors == 3 {
            Cell::Alive
        } else {
            Cell::Dead
        },
    }
}

} // verus!
