use game_of_life::{next_universe, Cell, Dims, GridError, Universe};

fn cells_in(rows: &[&str]) -> Vec<Cell> {
    let mut cells = Vec::new();
    for row in rows {
        for ch in row.chars() {
            cells.push(if ch == '#' { Cell::Alive } else { Cell::Dead });
        }
    }
    cells
}

fn universe_of(rows: &[&str]) -> Universe {
    let height = rows.len() as u32;
    let width = rows[0].chars().count() as u32;
    let dims = Dims::new(width, height).unwrap();
    Universe::from_cells(dims, cells_in(rows)).unwrap()
}

fn shifted(rows: &[&str], down: usize, right: usize) -> Vec<Cell> {
    let height = rows.len();
    let width = rows[0].chars().count();
    let cells = cells_in(rows);
    let mut moved = vec![Cell::Dead; cells.len()];
    for row in 0..height {
        for col in 0..width {
            let to = ((row + down) % height) * width + (col + right) % width;
            moved[to] = cells[row * width + col];
        }
    }
    moved
}

fn default_seed(i: usize) -> Cell {
    if i % 2 == 0 || i % 7 == 0 {
        Cell::Alive
    } else {
        Cell::Dead
    }
}

#[test]
fn default_universe_is_64_by_64() {
    let uni = Universe::new();
    assert_eq!(uni.width(), 64);
    assert_eq!(uni.height(), 64);
    assert_eq!(uni.cells().len(), 4096);
}

#[test]
fn default_universe_holds_the_default_seed() {
    let uni = Universe::new();
    let cells = uni.cells();
    assert_eq!(cells[0], Cell::Alive);
    assert_eq!(cells[1], Cell::Dead);
    assert_eq!(cells[2], Cell::Alive);
    assert_eq!(cells[3], Cell::Dead);
    assert_eq!(cells[7], Cell::Alive);
    assert_eq!(cells[9], Cell::Dead);
    assert_eq!(cells[21], Cell::Alive);
    assert_eq!(cells[4095], Cell::Alive);
    assert_eq!(cells[4093], Cell::Dead);
    for (i, &cell) in cells.iter().enumerate() {
        assert_eq!(cell, default_seed(i), "cell {}", i);
    }
}

#[test]
fn default_universe_is_the_same_every_time() {
    let first = Universe::new();
    let second = Universe::new();
    assert_eq!(first.cells(), second.cells());
}

#[test]
fn sized_universe_holds_the_default_seed() {
    let uni = Universe::with_dims(5, 3).unwrap();
    assert_eq!(uni.width(), 5);
    assert_eq!(uni.height(), 3);
    let expected: Vec<Cell> = (0..15).map(default_seed).collect();
    assert_eq!(uni.cells(), expected.as_slice());
    assert_eq!(uni.render(), "◼◻◼◻◼\n◻◼◼◼◻\n◼◻◼◻◼\n");
}

#[test]
fn sized_universe_of_default_extent_is_the_default() {
    let uni = Universe::with_dims(64, 64).unwrap();
    assert_eq!(uni.cells(), Universe::new().cells());
}

#[test]
fn sized_universe_refuses_a_zero_dimension() {
    assert!(matches!(Universe::with_dims(0, 3), Err(GridError::InvalidDimensions)));
    assert!(matches!(Universe::with_dims(3, 0), Err(GridError::InvalidDimensions)));
    assert!(matches!(Universe::with_dims(0, 0), Err(GridError::InvalidDimensions)));
}

#[test]
fn empty_grid_stays_empty() {
    for (width, height) in [(1u32, 1u32), (2, 2), (3, 3), (5, 4), (1, 7), (9, 1), (16, 16)] {
        let dims = Dims::new(width, height).unwrap();
        let count = (width * height) as usize;
        let mut uni = Universe::from_cells(dims, vec![Cell::Dead; count]).unwrap();
        for _ in 0..3 {
            uni.tick();
            assert!(uni.cells().iter().all(|&cell| cell == Cell::Dead));
            assert_eq!(uni.cells().len(), count);
        }
    }
}

#[test]
fn block_is_a_still_life() {
    let rows = ["....", ".##.", ".##.", "...."];
    let mut uni = universe_of(&rows);
    let counts = uni.alive_neighbours();
    for idx in [5usize, 6, 9, 10] {
        assert_eq!(counts[idx], 3);
    }
    for idx in [0usize, 1, 2, 3, 4, 7, 8, 11, 12, 13, 14, 15] {
        assert_ne!(counts[idx], 3);
    }
    uni.tick();
    assert_eq!(uni.cells(), cells_in(&rows).as_slice());
    uni.tick();
    assert_eq!(uni.cells(), cells_in(&rows).as_slice());
}

#[test]
fn block_is_a_still_life_on_a_larger_grid() {
    let rows = ["......", "......", "..##..", "..##..", "......", "......"];
    let mut uni = universe_of(&rows);
    for _ in 0..5 {
        uni.tick();
        assert_eq!(uni.cells(), cells_in(&rows).as_slice());
    }
}

#[test]
fn blinker_has_period_two() {
    let flat = [".....", ".....", ".###.", ".....", "....."];
    let upright = [".....", "..#..", "..#..", "..#..", "....."];
    let mut uni = universe_of(&flat);
    uni.tick();
    assert_eq!(uni.cells(), cells_in(&upright).as_slice());
    for row in 0i64..5 {
        for col in 0i64..5 {
            let alive = col == 2 && (1..=3).contains(&row);
            let expected = if alive { Cell::Alive } else { Cell::Dead };
            assert_eq!(uni.cell(row, col), expected);
        }
    }
    uni.tick();
    assert_eq!(uni.cells(), cells_in(&flat).as_slice());
    uni.tick();
    assert_eq!(uni.cells(), cells_in(&upright).as_slice());
}

#[test]
fn glider_moves_one_cell_diagonally_in_four_ticks() {
    let rows = [
        ".#......", //
        "..#.....", //
        "###.....", //
        "........", //
        "........", //
        "........", //
        "........", //
        "........", //
    ];
    let mut uni = universe_of(&rows);
    for _ in 0..4 {
        uni.tick();
    }
    assert_eq!(uni.cells(), shifted(&rows, 1, 1).as_slice());
    for _ in 0..4 {
        uni.tick();
    }
    assert_eq!(uni.cells(), shifted(&rows, 2, 2).as_slice());
}

#[test]
fn glider_wraps_around_the_grid() {
    let rows = [
        "......", //
        "......", //
        "......", //
        "....#.", //
        ".....#", //
        "...###", //
    ];
    let mut uni = universe_of(&rows);
    for _ in 0..4 {
        uni.tick();
    }
    assert_eq!(uni.cells(), shifted(&rows, 1, 1).as_slice());
    assert_eq!(uni.cell(0, 0), Cell::Alive);
    for _ in 0..20 {
        uni.tick();
    }
    assert_eq!(uni.cells(), cells_in(&rows).as_slice());
}

#[test]
fn single_live_cell_on_a_one_by_one_grid_dies() {
    let mut uni = universe_of(&["#"]);
    uni.tick();
    assert_eq!(uni.cells(), [Cell::Dead].as_slice());
}

#[test]
fn lone_cell_dies_of_underpopulation() {
    let mut uni = universe_of(&["...", ".#.", "..."]);
    uni.tick();
    assert!(uni.cells().iter().all(|&cell| cell == Cell::Dead));
}

#[test]
fn three_in_a_corner_give_birth_to_the_fourth() {
    let mut uni = universe_of(&["....", ".##.", ".#..", "...."]);
    uni.tick();
    assert_eq!(uni.cells(), cells_in(&["....", ".##.", ".##.", "...."]).as_slice());
}

#[test]
fn crowded_cell_dies_of_overpopulation() {
    let mut uni = universe_of(&[".....", "..#..", ".###.", "..#..", "....."]);
    uni.tick();
    assert_eq!(uni.cell(2, 2), Cell::Dead);
    assert_eq!(
        uni.cells(),
        cells_in(&[".....", ".###.", ".#.#.", ".###.", "....."]).as_slice()
    );
}

#[test]
fn next_universe_leaves_the_universe_as_it_is() {
    let rows = [".....", ".....", ".###.", ".....", "....."];
    let uni = universe_of(&rows);
    let next = next_universe(&uni);
    assert_eq!(next, cells_in(&[".....", "..#..", "..#..", "..#..", "....."]));
    assert_eq!(uni.cells(), cells_in(&rows).as_slice());
}

#[test]
fn tick_installs_what_next_universe_computes() {
    let mut uni = Universe::new();
    for _ in 0..3 {
        let next = next_universe(&uni);
        uni.tick();
        assert_eq!(uni.cells(), next.as_slice());
        assert_eq!(uni.width(), 64);
        assert_eq!(uni.height(), 64);
    }
}

#[test]
fn every_generation_uses_fresh_counts() {
    let mut uni = universe_of(&[".....", ".....", ".###.", ".....", "....."]);
    for _ in 0..6 {
        let counts = uni.alive_neighbours();
        let before = uni.cells().to_vec();
        uni.tick();
        for (idx, &cell) in uni.cells().iter().enumerate() {
            let expected = match (before[idx], counts[idx]) {
                (Cell::Alive, 2) | (Cell::Alive, 3) | (Cell::Dead, 3) => Cell::Alive,
                _ => Cell::Dead,
            };
            assert_eq!(cell, expected);
        }
    }
}
