use tetris_core::grid::{Cell, Grid};

#[test]
fn new_grid_is_empty_and_walled() {
    let g = Grid::new(10, 20);
    for y in 0..20 {
        for x in 0..10 {
            assert_eq!(g.cell(x, y), Cell::Empty);
        }
    }
    assert!(g.is_occupied(-1, 0));
    assert!(g.is_occupied(0, -1));
    assert!(g.is_occupied(10, 0));
    assert!(g.is_occupied(0, 20));
    assert!(!g.is_occupied(0, 0));
    assert!(!g.is_occupied(9, 19));
}

#[test]
fn set_cell_makes_position_occupied() {
    let mut g = Grid::new(10, 20);
    g.set_cell(3, 5, Cell::Filled(2));
    assert!(g.is_occupied(3, 5));
    assert_eq!(g.cell(3, 5), Cell::Filled(2));
    assert!(!g.is_occupied(3, 4));
}

#[test]
fn clear_removes_exactly_full_rows_and_shifts() {
    let mut g = Grid::new(4, 5);
    for x in 0..4 {
        g.set_cell(x, 0, Cell::Filled(1));
        g.set_cell(x, 2, Cell::Filled(2));
    }
    g.set_cell(2, 1, Cell::Filled(3));
    g.set_cell(0, 3, Cell::Filled(4));
    let n = g.clear_full_rows();
    assert_eq!(n, 2);
    // row 1 had one full row below it: it lands on row 0
    assert_eq!(g.cell(2, 0), Cell::Filled(3));
    // row 3 had two full rows below it: it lands on row 1
    assert_eq!(g.cell(0, 1), Cell::Filled(4));
    // everything else, the vacated top rows included, is empty
    for y in 0..5 {
        for x in 0..4 {
            if (x, y) != (2, 0) && (x, y) != (0, 1) {
                assert_eq!(g.cell(x, y), Cell::Empty);
            }
        }
    }
}

#[test]
fn clear_on_board_without_full_rows_is_identity() {
    let mut g = Grid::new(3, 3);
    g.set_cell(0, 0, Cell::Filled(5));
    g.set_cell(2, 1, Cell::Filled(6));
    let n = g.clear_full_rows();
    assert_eq!(n, 0);
    assert_eq!(g.cell(0, 0), Cell::Filled(5));
    assert_eq!(g.cell(2, 1), Cell::Filled(6));
    assert_eq!(g.cell(1, 0), Cell::Empty);
}

#[test]
fn lock_cells_fills_free_positions() {
    let mut g = Grid::new(10, 20);
    let cells = vec![(6, 0), (7, 0), (8, 0), (9, 0)];
    assert!(g.lock_cells(&cells, 3));
    for &(x, y) in cells.iter() {
        assert_eq!(g.cell(x as usize, y as usize), Cell::Filled(3));
    }
}

#[test]
fn lock_cells_refuses_occupied_position_and_changes_nothing() {
    let mut g = Grid::new(10, 20);
    g.set_cell(7, 0, Cell::Filled(1));
    let cells = vec![(6, 0), (7, 0), (8, 0), (9, 0)];
    assert!(!g.lock_cells(&cells, 3));
    assert_eq!(g.cell(6, 0), Cell::Empty);
    assert_eq!(g.cell(7, 0), Cell::Filled(1));
    assert_eq!(g.cell(8, 0), Cell::Empty);
}

#[test]
fn lock_cells_refuses_out_of_bounds_and_changes_nothing() {
    let mut g = Grid::new(10, 20);
    let cells = vec![(7, 0), (8, 0), (9, 0), (10, 0)];
    assert!(!g.lock_cells(&cells, 3));
    for x in 0..10 {
        assert_eq!(g.cell(x, 0), Cell::Empty);
    }
}

#[test]
fn bottom_row_completed_by_i_piece_clears_and_drops_row_above() {
    let mut g = Grid::new(10, 20);
    // bottom row filled except where the horizontal I piece will land
    for x in 0..6 {
        g.set_cell(x, 0, Cell::Filled(1));
    }
    // a marker in the row above, to watch it shift down
    g.set_cell(0, 1, Cell::Filled(7));
    // the I piece lands horizontally on row 0, its last cell in column 9
    assert!(g.lock_cells(&vec![(6, 0), (7, 0), (8, 0), (9, 0)], 2));
    let n = g.clear_full_rows();
    assert_eq!(n, 1);
    assert_eq!(g.cell(0, 0), Cell::Filled(7));
    for x in 1..10 {
        assert_eq!(g.cell(x, 0), Cell::Empty);
    }
    for x in 0..10 {
        assert_eq!(g.cell(x, 1), Cell::Empty);
    }
}
