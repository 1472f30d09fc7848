use game_of_life::universe::Cell;
use game_of_life::universe::GridError;
use game_of_life::universe::Universe;

/// A grid of the given size with every cell cleared to Dead.
fn empty_grid(width: u32, height: u32) -> Universe {
    let mut universe = Universe::new_with_dimensions(width, height).unwrap();
    for row in 0..height {
        for col in 0..width {
            universe.set_cell(row, col, Cell::Dead);
        }
    }
    universe
}

#[test]
fn initial_pattern_default() {
    let universe = Universe::new();
    // Linear index 0 is a multiple of 2, index 7 a multiple of 7,
    // index 1 neither.
    assert_eq!(universe.get_cell(0, 0), Cell::Alive);
    assert_eq!(universe.get_cell(0, 7), Cell::Alive);
    assert_eq!(universe.get_cell(0, 1), Cell::Dead);
}

#[test]
fn neighbor_count_within_bounds() {
    let universe = Universe::new();
    for row in 0..64 {
        for col in 0..64 {
            let count = universe.get_live_neighbor_count(row, col);
            assert!(count <= 8);
        }
    }
}

#[test]
fn neighbor_count_extremes() {
    let empty = empty_grid(5, 5);
    assert_eq!(empty.get_live_neighbor_count(2, 2), 0);

    let mut full = empty_grid(3, 3);
    for row in 0..3 {
        for col in 0..3 {
            full.set_cell(row, col, Cell::Alive);
        }
    }
    assert_eq!(full.get_live_neighbor_count(1, 1), 8);
}

#[test]
fn normalize_wraps_default() {
    let universe = Universe::new();
    assert_eq!(universe.normalize_coordinate(0, 64), 63);
    assert_eq!(universe.normalize_coordinate(1, 64), 0);
    assert_eq!(universe.normalize_coordinate(2, 64), 1);
}

#[test]
fn normalize_unit_torus() {
    let universe = Universe::new_with_dimensions(1, 1).unwrap();
    assert_eq!(universe.normalize_coordinate(0, 1), 0);
    assert_eq!(universe.normalize_coordinate(1, 1), 0);
    assert_eq!(universe.normalize_coordinate(2, 1), 0);
}

#[test]
fn lonely_cell_dies() {
    let mut universe = empty_grid(5, 5);
    universe.set_cell(2, 2, Cell::Alive);
    universe.tick();
    for row in 0..5 {
        for col in 0..5 {
            assert_eq!(universe.get_cell(row, col), Cell::Dead);
        }
    }
}

#[test]
fn survives_with_two_neighbors() {
    // A horizontal triple: the center cell has two live neighbors.
    let mut universe = empty_grid(5, 5);
    universe.set_cell(2, 1, Cell::Alive);
    universe.set_cell(2, 2, Cell::Alive);
    universe.set_cell(2, 3, Cell::Alive);
    universe.tick();
    assert_eq!(universe.get_cell(2, 2), Cell::Alive);
    // The ends had one live neighbor each and die.
    assert_eq!(universe.get_cell(2, 1), Cell::Dead);
    assert_eq!(universe.get_cell(2, 3), Cell::Dead);
}

#[test]
fn birth_with_three_neighbors() {
    let mut universe = empty_grid(5, 5);
    universe.set_cell(2, 1, Cell::Alive);
    universe.set_cell(2, 2, Cell::Alive);
    universe.set_cell(2, 3, Cell::Alive);
    universe.tick();
    // The dead cells above and below the center see all three.
    assert_eq!(universe.get_cell(1, 2), Cell::Alive);
    assert_eq!(universe.get_cell(3, 2), Cell::Alive);
}

#[test]
fn dead_stays_with_two_neighbors() {
    let mut universe = empty_grid(5, 5);
    universe.set_cell(2, 1, Cell::Alive);
    universe.set_cell(2, 2, Cell::Alive);
    universe.set_cell(2, 3, Cell::Alive);
    // (1, 1) touches only (2, 1) and (2, 2).
    assert_eq!(universe.get_live_neighbor_count(1, 1), 2);
    universe.tick();
    assert_eq!(universe.get_cell(1, 1), Cell::Dead);
}

#[test]
fn dead_stays_with_four_neighbors() {
    let mut universe = empty_grid(5, 5);
    universe.set_cell(1, 2, Cell::Alive);
    universe.set_cell(3, 2, Cell::Alive);
    universe.set_cell(2, 1, Cell::Alive);
    universe.set_cell(2, 3, Cell::Alive);
    assert_eq!(universe.get_live_neighbor_count(2, 2), 4);
    universe.tick();
    assert_eq!(universe.get_cell(2, 2), Cell::Dead);
}

#[test]
fn survives_with_three_neighbors() {
    // A two-by-two block away from the edges: each cell has three
    // live neighbors.
    let mut universe = empty_grid(5, 5);
    universe.set_cell(1, 1, Cell::Alive);
    universe.set_cell(1, 2, Cell::Alive);
    universe.set_cell(2, 1, Cell::Alive);
    universe.set_cell(2, 2, Cell::Alive);
    assert_eq!(universe.get_live_neighbor_count(1, 1), 3);
    universe.tick();
    assert_eq!(universe.get_cell(1, 1), Cell::Alive);
    assert_eq!(universe.get_cell(1, 2), Cell::Alive);
    assert_eq!(universe.get_cell(2, 1), Cell::Alive);
    assert_eq!(universe.get_cell(2, 2), Cell::Alive);
}

#[test]
fn overcrowded_cell_dies() {
    let mut universe = empty_grid(5, 5);
    universe.set_cell(1, 2, Cell::Alive);
    universe.set_cell(3, 2, Cell::Alive);
    universe.set_cell(2, 1, Cell::Alive);
    universe.set_cell(2, 3, Cell::Alive);
    universe.set_cell(2, 2, Cell::Alive);
    assert_eq!(universe.get_live_neighbor_count(2, 2), 4);
    universe.tick();
    assert_eq!(universe.get_cell(2, 2), Cell::Dead);
}

#[test]
fn block_still_life_on_torus() {
    // On a 4x4 torus a two-by-two block of live cells gives each live
    // cell exactly three live neighbors and every dead cell at most
    // two, so one generation changes nothing.
    let mut universe = empty_grid(4, 4);
    universe.set_cell(0, 0, Cell::Alive);
    universe.set_cell(0, 1, Cell::Alive);
    universe.set_cell(1, 0, Cell::Alive);
    universe.set_cell(1, 1, Cell::Alive);
    let before = universe.render();
    universe.tick();
    let after = universe.render();
    assert_eq!(before, after);
}

#[test]
fn runs_are_deterministic() {
    let mut first = Universe::new();
    let mut second = Universe::new();
    for _ in 0..3 {
        first.tick();
        second.tick();
    }
    assert_eq!(first.render(), second.render());
    for row in 0..64 {
        for col in 0..64 {
            assert_eq!(first.get_cell(row, col), second.get_cell(row, col));
        }
    }
}

#[test]
fn zero_dimension_rejected() {
    for (width, height) in [(0, 5), (5, 0), (0, 0)] {
        match Universe::new_with_dimensions(width, height) {
            Err(error) => assert_eq!(error, GridError::InvalidDimensions),
            Ok(_) => panic!("a zero dimension must be rejected"),
        }
    }
    assert!(Universe::new_with_dimensions(1, 1).is_ok());
}

#[test]
fn single_row_torus_updates_every_column() {
    // A non-square 5x1 grid pins two choices: the column loop runs over
    // the full width, and on a one-row torus a cell counts itself twice
    // and each horizontal neighbor three times.
    let universe = Universe::new_with_dimensions(5, 1).unwrap();
    // The initial pattern fills indices 0, 2 and 4.
    let expected_before = [Cell::Alive, Cell::Dead, Cell::Alive, Cell::Dead, Cell::Alive];
    for col in 0..5 {
        assert_eq!(universe.get_cell(0, col), expected_before[col as usize]);
    }
    let mut universe = universe;
    universe.tick();
    let expected_after = [Cell::Dead, Cell::Dead, Cell::Alive, Cell::Dead, Cell::Dead];
    for col in 0..5 {
        assert_eq!(universe.get_cell(0, col), expected_after[col as usize]);
    }
}
