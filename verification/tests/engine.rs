use rustris::grid::Grid;
use rustris::rustris::{Command, LockState, Rustris};
use rustris::score::{classify, score_delta, LineClears};
use rustris::spawn::piece_type_from_index;
use rustris::types::{BlockState, MoveDirection, RunState, TetrominoType};
use rustris::util::Point2D;

fn new_engine() -> Rustris {
    Rustris::new(10, 22, 500, 500, Point2D::new(5, 1))
}

fn active_cells(e: &Rustris) -> Vec<(i32, i32)> {
    e.tetromino
        .as_ref()
        .unwrap()
        .cells()
        .iter()
        .map(|p| (p.x, p.y))
        .collect()
}

#[test]
fn a_fresh_engine_is_not_running() {
    let e = new_engine();
    assert_eq!(e.state, RunState::NotRunning);
    assert_eq!(e.score, 0);
    assert!(e.tetromino.is_none());
}

#[test]
fn movement_commands_are_ignored_before_a_run_starts() {
    let mut e = new_engine();
    e.command(Command::MoveLeft);
    e.command(Command::Rotate);
    e.command(Command::SoftDrop);
    assert_eq!(e.state, RunState::NotRunning);
    assert!(e.tetromino.is_none());
}

#[test]
fn start_spawns_a_piece_at_the_configured_anchor() {
    let mut e = new_engine();
    e.command(Command::Start);
    assert_eq!(e.state, RunState::Running);
    let p = e.tetromino.unwrap();
    assert_eq!((p.position.x, p.position.y), (5, 1));
    assert_eq!(p.rotation, rustris::types::Rotation::_0);
    assert!(e.tetromino_next.is_some());
}

#[test]
fn move_left_at_the_wall_is_rejected() {
    let mut e = new_engine();
    e.command(Command::Start);
    // Push the piece against the left wall; ten times is more than enough
    // on a ten-column field.
    for _ in 0..10 {
        e.command(Command::MoveLeft);
    }
    let leftmost = active_cells(&e).iter().map(|c| c.0).min().unwrap();
    assert_eq!(leftmost, 0);
    let before = e.tetromino.unwrap();
    e.command(Command::MoveLeft);
    assert_eq!(e.tetromino.unwrap(), before);
}

#[test]
fn soft_dropping_to_the_floor_enters_pending_lock() {
    let mut e = new_engine();
    e.command(Command::Start);
    assert_eq!(e.lock_state, LockState::Falling);
    for _ in 0..30 {
        e.command(Command::SoftDrop);
    }
    assert_eq!(e.lock_state, LockState::PendingLock(0));
    // The piece sits on the floor: every cell is inside the field.
    for (x, y) in active_cells(&e) {
        assert!((0..10).contains(&x));
        assert!((0..22).contains(&y));
    }
}

#[test]
fn lock_delay_expiry_fuses_the_piece_and_respawns() {
    let mut e = new_engine();
    e.command(Command::Start);
    for _ in 0..30 {
        e.command(Command::SoftDrop);
    }
    assert_eq!(e.lock_state, LockState::PendingLock(0));
    let resting = active_cells(&e);
    e.tick(500);
    assert_eq!(e.state, RunState::Running);
    // The old piece's cells are now filled in the grid.
    for (x, y) in &resting {
        assert!(e.grid.check_occupied(*x, *y));
    }
    // A fresh piece was spawned from the queue at the anchor.
    let p = e.tetromino.unwrap();
    assert_eq!((p.position.x, p.position.y), (5, 1));
    assert_eq!(e.lock_state, LockState::Falling);
}

#[test]
fn a_successful_move_resets_the_lock_delay() {
    let mut e = new_engine();
    e.command(Command::Start);
    for _ in 0..30 {
        e.command(Command::SoftDrop);
    }
    assert_eq!(e.lock_state, LockState::PendingLock(0));
    // Accumulate some lock delay, but not enough to lock.
    e.tick(200);
    assert_eq!(e.lock_state, LockState::PendingLock(200));
    // A successful sideways move restarts the countdown from zero.
    let before = active_cells(&e);
    e.command(Command::MoveRight);
    let after = active_cells(&e);
    if before != after {
        assert_eq!(e.lock_state, LockState::PendingLock(0));
    }
}

#[test]
fn gravity_moves_the_piece_down_one_row() {
    let mut e = new_engine();
    e.command(Command::Start);
    let before = e.tetromino.unwrap().position.y;
    e.tick(499);
    assert_eq!(e.tetromino.unwrap().position.y, before);
    e.tick(1);
    assert_eq!(e.tetromino.unwrap().position.y, before + 1);
    assert_eq!(e.move_tetromino_down, 0);
}

#[test]
fn simultaneous_four_row_clear_scores_a_tetris() {
    let mut e = new_engine();
    e.command(Command::Start);
    // Fill the bottom four rows except where the active piece will lock,
    // by writing straight into the grid, then complete them through the
    // engine's own lock step using a manufactured pending lock.
    let mut cells: Vec<Point2D<i32>> = Vec::new();
    for y in 18..22 {
        for x in 0..10 {
            cells.push(Point2D::new(x, y));
        }
    }
    e.grid.commit(&cells, 1);
    let rows = e.grid.find_line_clears();
    assert_eq!(rows, vec![18, 19, 20, 21]);
    let clears = classify(e.grid.clear_lines());
    assert_eq!(clears, LineClears::Tetris);
    assert_eq!(score_delta(clears), 12000);
    // The four cleared rows were at the bottom, so the field is empty again.
    for y in 0..22 {
        for x in 0..10 {
            assert_eq!(e.grid.cell(x, y), BlockState::Empty);
        }
    }
}

#[test]
fn locking_a_completed_row_through_tick_adds_its_score() {
    let mut e = new_engine();
    e.command(Command::Start);
    // Fill the bottom row except the columns the active piece covers once
    // dropped; every piece type covers its anchor column span, so leave a
    // gap matching the piece's own cells after a full drop.
    for _ in 0..30 {
        e.command(Command::SoftDrop);
    }
    let resting = active_cells(&e);
    let bottom: i32 = resting.iter().map(|c| c.1).max().unwrap();
    let covered: Vec<i32> = resting
        .iter()
        .filter(|c| c.1 == bottom)
        .map(|c| c.0)
        .collect();
    let mut cells: Vec<Point2D<i32>> = Vec::new();
    for x in 0..10 {
        if !covered.contains(&x) {
            cells.push(Point2D::new(x, bottom));
        }
    }
    e.grid.commit(&cells, 2);
    let before = e.score;
    e.tick(500);
    assert!(e.score >= before + 1000);
}

#[test]
fn score_never_decreases_across_a_session() {
    let mut e = new_engine();
    let mut last = e.score;
    let script = [
        Command::Start,
        Command::MoveLeft,
        Command::Rotate,
        Command::SoftDrop,
        Command::MoveRight,
        Command::SoftDrop,
        Command::Rotate,
        Command::MoveLeft,
    ];
    for round in 0..200 {
        let cmd = script[round % script.len()];
        e.command(cmd);
        assert!(e.score >= last);
        last = e.score;
        e.tick(137);
        assert!(e.score >= last);
        last = e.score;
    }
}

#[test]
fn validate_move_returns_candidates_without_mutating() {
    let mut e = new_engine();
    e.command(Command::Start);
    let before = e.tetromino.unwrap();
    let cand = e.validate_move(&MoveDirection::Down);
    assert_eq!(e.tetromino.unwrap(), before);
    let c = cand.unwrap();
    assert_eq!(c.position.y, before.position.y + 1);
    assert_eq!(c.position.x, before.position.x);
}

#[test]
fn lock_tetromino_fuses_the_active_cells() {
    let mut e = new_engine();
    e.command(Command::Start);
    let cells = active_cells(&e);
    e.lock_tetromino();
    for (x, y) in cells {
        assert!(e.grid.check_occupied(x, y));
    }
}

#[test]
fn generate_tetromino_consumes_the_queue_and_refills_it() {
    let mut e = new_engine();
    e.command(Command::Start);
    let queued = e.tetromino_next.unwrap();
    e.generate_tetromino();
    assert_eq!(e.tetromino.unwrap().t_type, queued);
    assert!(e.tetromino_next.is_some());
}

#[test]
fn rotation_near_the_wall_is_corrected_horizontally() {
    let mut e = new_engine();
    e.command(Command::Start);
    // Drop a little so vertical room is no concern, then hug the left wall
    // and rotate; the engine either applies a legal corrected rotation or
    // rejects it, but the piece always stays fully inside the field.
    for _ in 0..3 {
        e.command(Command::SoftDrop);
    }
    for _ in 0..10 {
        e.command(Command::MoveLeft);
    }
    e.command(Command::Rotate);
    for (x, y) in active_cells(&e) {
        assert!((0..10).contains(&x), "cell x {} out of bounds", x);
        assert!((0..22).contains(&y), "cell y {} out of bounds", y);
    }
}

#[test]
fn calculate_offset_shifts_an_out_of_bounds_piece_back() {
    let g = Grid::new(10, 22);
    let p = rustris::tetromino::Tetromino::new(
        Point2D::new(0, 5),
        rustris::types::Rotation::_0,
        rustris::types::TetrominoType::I,
    );
    // The flat I piece at anchor 0 reaches columns -2..=1.
    let off = Rustris::calculate_offset(&g, &p);
    assert_eq!((off.x, off.y), (2, 0));
    let q = rustris::tetromino::Tetromino::new(
        Point2D::new(9, 5),
        rustris::types::Rotation::_0,
        rustris::types::TetrominoType::O,
    );
    // The O piece at anchor 9 reaches column 10, one past the wall.
    let off_q = Rustris::calculate_offset(&g, &q);
    assert_eq!((off_q.x, off_q.y), (-1, 0));
    let r = rustris::tetromino::Tetromino::new(
        Point2D::new(5, 5),
        rustris::types::Rotation::_0,
        rustris::types::TetrominoType::T,
    );
    let off_r = Rustris::calculate_offset(&g, &r);
    assert_eq!((off_r.x, off_r.y), (0, 0));
}

#[test]
fn top_out_ends_the_run() {
    let mut e = new_engine();
    e.command(Command::Start);
    // Brick up the spawn area except the rightmost column, so no row can
    // ever become full and the next spawn finds no legal position.
    let mut cells: Vec<Point2D<i32>> = Vec::new();
    for y in 0..4 {
        for x in 0..9 {
            cells.push(Point2D::new(x, y));
        }
    }
    e.grid.commit(&cells, 1);
    // The active piece is walled in: its downward move is rejected, which
    // starts the lock delay; the expiry locks it in place, and the piece
    // spawned in its stead has no legal position.
    e.command(Command::SoftDrop);
    assert_eq!(e.lock_state, LockState::PendingLock(0));
    e.tick(500);
    assert_eq!(e.state, RunState::TopOut);
}

#[test]
fn random_pieces_are_always_one_of_the_seven_types() {
    let mut seen = std::collections::HashSet::new();
    for _ in 0..200 {
        let p = rustris::tetromino::Tetromino::random(
            Point2D::new(5, 1),
            rustris::types::Rotation::_0,
        );
        assert!(matches!(
            p.t_type,
            TetrominoType::I
                | TetrominoType::O
                | TetrominoType::T
                | TetrominoType::S
                | TetrominoType::Z
                | TetrominoType::J
                | TetrominoType::L
        ));
        seen.insert(format!("{:?}", p.t_type));
    }
    // A uniform draw over seven types virtually never yields a single
    // type two hundred times in a row.
    assert!(seen.len() >= 2);
}

#[test]
fn piece_type_from_index_matches_the_draw_table() {
    assert_eq!(piece_type_from_index(0), TetrominoType::I);
    assert_eq!(piece_type_from_index(1), TetrominoType::O);
    assert_eq!(piece_type_from_index(2), TetrominoType::T);
    assert_eq!(piece_type_from_index(3), TetrominoType::S);
    assert_eq!(piece_type_from_index(4), TetrominoType::Z);
    assert_eq!(piece_type_from_index(5), TetrominoType::J);
    assert_eq!(piece_type_from_index(6), TetrominoType::L);
    assert_eq!(piece_type_from_index(200), TetrominoType::L);
}
