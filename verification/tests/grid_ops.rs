use rustris::grid::Grid;
use rustris::types::BlockState;
use rustris::util::Point2D;

fn fill_row(g: &mut Grid, y: i32, color: u8) {
    let mut cells: Vec<Point2D<i32>> = Vec::new();
    for x in 0..g.width as i32 {
        cells.push(Point2D::new(x, y));
    }
    g.commit(&cells, color);
}

#[test]
fn fresh_grid_is_empty() {
    let g = Grid::new(10, 22);
    for y in 0..22 {
        for x in 0..10 {
            assert_eq!(g.cell(x, y), BlockState::Empty);
            assert!(!g.check_occupied(x as i32, y as i32));
        }
    }
}

#[test]
fn check_occupied_reports_true_everywhere_outside_the_field() {
    let g = Grid::new(10, 22);
    assert!(g.check_occupied(-1, 0));
    assert!(g.check_occupied(0, -1));
    assert!(g.check_occupied(-1, -1));
    assert!(g.check_occupied(10, 0));
    assert!(g.check_occupied(0, 22));
    assert!(g.check_occupied(10, 22));
    assert!(g.check_occupied(i32::MIN, i32::MIN));
    assert!(g.check_occupied(i32::MAX, i32::MAX));
    assert!(g.check_occupied(5, i32::MIN));
    assert!(g.check_occupied(i32::MAX, 5));
}

#[test]
fn commit_fills_exactly_the_listed_cells() {
    let mut g = Grid::new(10, 22);
    let cells = vec![
        Point2D::new(3, 20),
        Point2D::new(4, 20),
        Point2D::new(3, 21),
        Point2D::new(4, 21),
    ];
    g.commit(&cells, 2);
    assert_eq!(g.cell(3, 20), BlockState::Filled(2));
    assert_eq!(g.cell(4, 20), BlockState::Filled(2));
    assert_eq!(g.cell(3, 21), BlockState::Filled(2));
    assert_eq!(g.cell(4, 21), BlockState::Filled(2));
    assert_eq!(g.cell(2, 20), BlockState::Empty);
    assert_eq!(g.cell(5, 21), BlockState::Empty);
    assert!(g.check_occupied(3, 20));
    assert!(!g.check_occupied(2, 20));
}

#[test]
fn commit_skips_out_of_range_cells_without_panicking() {
    let mut g = Grid::new(10, 22);
    let cells = vec![
        Point2D::new(-1, 0),
        Point2D::new(0, -5),
        Point2D::new(10, 0),
        Point2D::new(0, 22),
        Point2D::new(0, 0),
    ];
    g.commit(&cells, 7);
    assert_eq!(g.cell(0, 0), BlockState::Filled(7));
    for y in 0..22 {
        for x in 0..10 {
            if (x, y) != (0, 0) {
                assert_eq!(g.cell(x, y), BlockState::Empty);
            }
        }
    }
}

#[test]
fn scan_after_committing_one_full_row_reports_exactly_that_row() {
    let mut g = Grid::new(10, 22);
    fill_row(&mut g, 13, 1);
    g.commit(&vec![Point2D::new(4, 5), Point2D::new(5, 5)], 3);
    let rows = g.find_line_clears();
    assert_eq!(rows, vec![13]);
}

#[test]
fn scan_on_empty_grid_reports_nothing() {
    let g = Grid::new(10, 22);
    assert!(g.find_line_clears().is_empty());
}

#[test]
fn scan_reports_full_rows_ascending() {
    let mut g = Grid::new(10, 22);
    fill_row(&mut g, 21, 1);
    fill_row(&mut g, 3, 2);
    fill_row(&mut g, 17, 3);
    assert_eq!(g.find_line_clears(), vec![3, 17, 21]);
}

#[test]
fn clear_rows_with_empty_list_changes_nothing() {
    let mut g = Grid::new(10, 22);
    fill_row(&mut g, 20, 4);
    g.commit(&vec![Point2D::new(2, 9)], 6);
    let before: Vec<Vec<BlockState>> = (0..22)
        .map(|y| (0..10).map(|x| g.cell(x, y)).collect())
        .collect();
    g.clear_rows(&vec![]);
    let after: Vec<Vec<BlockState>> = (0..22)
        .map(|y| (0..10).map(|x| g.cell(x, y)).collect())
        .collect();
    assert_eq!(before, after);
}

#[test]
fn clear_rows_on_all_empty_grid_is_identity() {
    let mut g = Grid::new(10, 22);
    g.clear_rows(&vec![]);
    assert_eq!(g.width, 10);
    assert_eq!(g.height, 22);
    for y in 0..22 {
        for x in 0..10 {
            assert_eq!(g.cell(x, y), BlockState::Empty);
        }
    }
}

#[test]
fn clearing_non_bottom_rows_preserves_order_of_survivors() {
    let mut g = Grid::new(10, 8);
    // Give every row a distinct colour so the compaction is observable.
    for y in 0..8 {
        fill_row(&mut g, y, 10 + y as u8);
    }
    g.clear_rows(&vec![2, 5]);
    // Two empty rows are backfilled at the top; the six survivors keep
    // their relative order: rows 0,1,3,4,6,7.
    for x in 0..10 {
        assert_eq!(g.cell(x, 0), BlockState::Empty);
        assert_eq!(g.cell(x, 1), BlockState::Empty);
    }
    let expected = [10, 11, 13, 14, 16, 17];
    for (i, c) in expected.iter().enumerate() {
        assert_eq!(g.cell(0, i + 2), BlockState::Filled(*c));
        assert_eq!(g.cell(9, i + 2), BlockState::Filled(*c));
    }
}

#[test]
fn clear_lines_clears_all_full_rows_at_once() {
    let mut g = Grid::new(10, 22);
    fill_row(&mut g, 18, 1);
    fill_row(&mut g, 19, 2);
    fill_row(&mut g, 20, 3);
    fill_row(&mut g, 21, 4);
    let n = g.clear_lines();
    assert_eq!(n, 4);
    for y in 0..22 {
        for x in 0..10 {
            assert_eq!(g.cell(x, y), BlockState::Empty);
        }
    }
}

#[test]
fn clear_lines_shifts_stack_down_by_the_cleared_count() {
    let mut g = Grid::new(10, 6);
    // Row 2 partially filled, rows 3 and 4 full, row 5 partially filled.
    g.commit(&vec![Point2D::new(0, 2)], 9);
    fill_row(&mut g, 3, 1);
    fill_row(&mut g, 4, 1);
    g.commit(&vec![Point2D::new(7, 5)], 8);
    let n = g.clear_lines();
    assert_eq!(n, 2);
    // The partial rows survive, shifted down by two.
    assert_eq!(g.cell(0, 4), BlockState::Filled(9));
    assert_eq!(g.cell(7, 5), BlockState::Filled(8));
    for y in 0..4 {
        for x in 0..10 {
            if (x, y) != (0, 4) {
                assert_eq!(g.cell(x, y), BlockState::Empty);
            }
        }
    }
}

#[test]
fn clear_line_removes_one_row_and_backfills_the_top() {
    let mut g = Grid::new(10, 6);
    fill_row(&mut g, 1, 5);
    fill_row(&mut g, 4, 6);
    let ok = g.clear_line(4);
    assert!(ok);
    // The old row 1 shifts down to row 2; the old row 4 is gone.
    assert_eq!(g.cell(0, 2), BlockState::Filled(5));
    for x in 0..10 {
        assert_eq!(g.cell(x, 0), BlockState::Empty);
        assert_eq!(g.cell(x, 4), BlockState::Empty);
    }
}

#[test]
fn clear_line_rejects_an_out_of_range_index() {
    let mut g = Grid::new(10, 6);
    fill_row(&mut g, 1, 5);
    assert!(!g.clear_line(6));
    assert_eq!(g.cell(0, 1), BlockState::Filled(5));
}

#[test]
fn reset_empties_every_cell() {
    let mut g = Grid::new(10, 22);
    fill_row(&mut g, 10, 3);
    g.commit(&vec![Point2D::new(1, 1)], 4);
    g.reset();
    assert_eq!(g.width, 10);
    assert_eq!(g.height, 22);
    for y in 0..22 {
        for x in 0..10 {
            assert_eq!(g.cell(x, y), BlockState::Empty);
        }
    }
}
