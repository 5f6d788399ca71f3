use tetris_core::game::{Command, GameState, Phase};
use tetris_core::grid::Cell;
use tetris_core::piece::TetrominoKind;

/// A fresh 10 x 20 game ticked once, so its first piece has spawned; the seed
/// is searched so that the piece has the wanted kind.
fn game_with_kind(kind: TetrominoKind) -> GameState {
    let mut seed: u64 = 0;
    loop {
        let mut g = GameState::new_game(10, 20, seed);
        g.tick(0);
        if let Some(p) = g.active_piece() {
            if p.kind == kind {
                return g;
            }
        }
        seed += 1;
    }
}

#[test]
fn new_game_starts_spawning_on_empty_board() {
    let g = GameState::new_game(10, 20, 1);
    assert_eq!(g.phase(), Phase::Spawning);
    assert!(g.active_piece().is_none());
    assert_eq!(g.last_clear_count(), 0);
    let snap = g.grid_snapshot();
    assert_eq!(snap.len(), 20);
    for row in snap.iter() {
        assert_eq!(row.len(), 10);
        for &c in row.iter() {
            assert_eq!(c, Cell::Empty);
        }
    }
}

#[test]
fn first_tick_spawns_at_fixed_anchor() {
    let mut g = GameState::new_game(10, 20, 1);
    g.tick(0);
    assert_eq!(g.phase(), Phase::Active);
    let p = g.active_piece().unwrap();
    assert_eq!((p.x, p.y), (4, 18));
}

#[test]
fn same_seed_gives_same_run() {
    let mut a = GameState::new_game(10, 20, 99);
    let mut b = GameState::new_game(10, 20, 99);
    for _ in 0..3 {
        a.tick(0);
        b.tick(0);
        assert_eq!(a.active_piece(), b.active_piece());
        a.apply_command(Command::HardDrop);
        b.apply_command(Command::HardDrop);
        a.tick(0);
        b.tick(0);
    }
    assert_eq!(a.grid_snapshot(), b.grid_snapshot());
    assert_eq!(a.phase(), b.phase());
}

#[test]
fn gravity_steps_once_per_full_interval() {
    let mut g = game_with_kind(TetrominoKind::O);
    let y0 = g.active_piece().unwrap().y;
    g.tick(300);
    assert_eq!(g.active_piece().unwrap().y, y0);
    assert_eq!(g.timers().0, 300);
    g.tick(800);
    // 1100 ms accumulated: one step down, 100 ms left over
    assert_eq!(g.active_piece().unwrap().y, y0 - 1);
    assert_eq!(g.timers().0, 100);
    g.tick(3000);
    // 3100 ms accumulated: three more steps, 100 ms left over
    assert_eq!(g.active_piece().unwrap().y, y0 - 4);
    assert_eq!(g.timers().0, 100);
}

#[test]
fn large_tick_grounds_piece_and_starts_lock_delay() {
    let mut g = game_with_kind(TetrominoKind::O);
    g.tick(60_000);
    assert_eq!(g.phase(), Phase::Locking);
    let p = g.active_piece().unwrap();
    assert_eq!(p.y, 0);
    assert_eq!(g.timers(), (0, 0));
}

#[test]
fn grounded_piece_locks_after_lock_delay() {
    let mut g = game_with_kind(TetrominoKind::O);
    g.tick(60_000);
    assert_eq!(g.phase(), Phase::Locking);
    g.tick(499);
    assert_eq!(g.phase(), Phase::Locking);
    g.tick(1);
    assert_eq!(g.phase(), Phase::Clearing);
    assert!(g.active_piece().is_none());
    g.tick(0);
    assert_eq!(g.phase(), Phase::Spawning);
    assert_eq!(g.last_clear_count(), 0);
}

#[test]
fn lateral_move_resets_lock_delay() {
    let mut g = game_with_kind(TetrominoKind::O);
    g.tick(60_000);
    assert_eq!(g.phase(), Phase::Locking);
    g.tick(400);
    assert_eq!(g.phase(), Phase::Locking);
    assert_eq!(g.timers().1, 400);
    // a legal lateral move before the 500 ms deadline rejoins Active ...
    g.apply_command(Command::MoveLeft);
    assert_eq!(g.phase(), Phase::Active);
    assert_eq!(g.timers().1, 0);
    // ... so the tick that would have crossed the original deadline locks nothing
    g.tick(400);
    assert!(g.phase() != Phase::Clearing);
    assert!(g.active_piece().is_some());
    // grounding anew restarts the full delay
    g.tick(1000);
    assert_eq!(g.phase(), Phase::Locking);
    g.tick(499);
    assert_eq!(g.phase(), Phase::Locking);
    g.tick(1);
    assert_eq!(g.phase(), Phase::Clearing);
}

#[test]
fn move_into_wall_is_rejected_and_state_unchanged() {
    let mut g = game_with_kind(TetrominoKind::O);
    for _ in 0..20 {
        g.apply_command(Command::MoveRight);
    }
    let p = g.active_piece().unwrap();
    assert_eq!(p.x, 8);
    let snap = g.grid_snapshot();
    let timers = g.timers();
    g.apply_command(Command::MoveRight);
    assert_eq!(g.active_piece().unwrap(), p);
    assert_eq!(g.phase(), Phase::Active);
    assert_eq!(g.grid_snapshot(), snap);
    assert_eq!(g.timers(), timers);
}

#[test]
fn rotation_out_of_bounds_is_rejected_and_state_unchanged() {
    let mut g = game_with_kind(TetrominoKind::I);
    // at the spawn anchor a vertical I would poke above the board
    let p = g.active_piece().unwrap();
    g.apply_command(Command::RotateCw);
    assert_eq!(g.active_piece().unwrap(), p);
    assert_eq!(g.phase(), Phase::Active);
}

#[test]
fn rotation_cycle_in_open_space_restores_piece() {
    let mut g = game_with_kind(TetrominoKind::T);
    g.tick(5000);
    let p = g.active_piece().unwrap();
    for _ in 0..4 {
        g.apply_command(Command::RotateCw);
    }
    assert_eq!(g.active_piece().unwrap(), p);
}

#[test]
fn soft_drop_moves_one_row_and_grounds_at_floor() {
    let mut g = game_with_kind(TetrominoKind::O);
    let y0 = g.active_piece().unwrap().y;
    g.apply_command(Command::SoftDrop);
    assert_eq!(g.active_piece().unwrap().y, y0 - 1);
    assert_eq!(g.phase(), Phase::Active);
    for _ in 0..30 {
        g.apply_command(Command::SoftDrop);
    }
    let p = g.active_piece().unwrap();
    assert_eq!(p.y, 0);
    assert_eq!(g.phase(), Phase::Locking);
    assert_eq!(g.active_piece().unwrap(), p);
}

#[test]
fn hard_drop_o_piece_fills_floor_corner_cells() {
    let mut g = game_with_kind(TetrominoKind::O);
    let p = g.active_piece().unwrap();
    assert_eq!((p.x, p.y), (4, 18));
    g.apply_command(Command::HardDrop);
    assert_eq!(g.phase(), Phase::Clearing);
    assert!(g.active_piece().is_none());
    let grid = g.grid();
    for (x, y) in [(4, 0), (4, 1), (5, 0), (5, 1)] {
        assert!(matches!(grid.cell(x, y), Cell::Filled(_)));
    }
    assert_eq!(grid.cell(3, 0), Cell::Empty);
    assert_eq!(grid.cell(6, 0), Cell::Empty);
    assert_eq!(grid.cell(4, 2), Cell::Empty);
    g.tick(0);
    assert_eq!(g.last_clear_count(), 0);
    assert_eq!(g.phase(), Phase::Spawning);
}

#[test]
fn blocked_spawn_is_game_over_and_absorbing() {
    let mut g = GameState::new_game(10, 20, 7);
    for (x, y) in [(4, 18), (5, 18), (4, 19), (5, 19)] {
        g.setup_cell(x, y, Cell::Filled(9));
    }
    g.tick(0);
    assert_eq!(g.phase(), Phase::GameOver);
    assert!(g.active_piece().is_none());
    let snap = g.grid_snapshot();
    g.tick(10_000);
    g.apply_command(Command::MoveLeft);
    g.apply_command(Command::HardDrop);
    assert_eq!(g.phase(), Phase::GameOver);
    assert!(g.active_piece().is_none());
    assert_eq!(g.grid_snapshot(), snap);
}

#[test]
fn two_o_pieces_clear_two_rows_on_narrow_board() {
    // search a seed whose first two spawned kinds are both O
    let mut seed: u64 = 0;
    let mut g = loop {
        let mut g = GameState::new_game(4, 10, seed);
        g.tick(0);
        let first = g.active_piece().map(|p| p.kind);
        g.apply_command(Command::HardDrop);
        g.tick(0); // clear (nothing yet)
        g.tick(0); // spawn the second piece
        let second = g.active_piece().map(|p| p.kind);
        if first == Some(TetrominoKind::O) && second == Some(TetrominoKind::O) {
            break GameState::new_game(4, 10, seed);
        }
        seed += 1;
    };
    // first O into the left half of the floor
    g.tick(0);
    g.apply_command(Command::MoveLeft);
    g.apply_command(Command::HardDrop);
    g.tick(0);
    assert_eq!(g.last_clear_count(), 0);
    // second O into the right half: rows 0 and 1 become full
    g.tick(0);
    g.apply_command(Command::MoveRight);
    g.apply_command(Command::HardDrop);
    assert_eq!(g.phase(), Phase::Clearing);
    g.tick(0);
    assert_eq!(g.last_clear_count(), 2);
    assert_eq!(g.phase(), Phase::Spawning);
    let snap = g.grid_snapshot();
    for row in snap.iter() {
        for &c in row.iter() {
            assert_eq!(c, Cell::Empty);
        }
    }
}

#[test]
fn stacked_hard_drops_build_a_tower() {
    let mut g = game_with_kind(TetrominoKind::O);
    g.apply_command(Command::HardDrop);
    g.tick(0); // clear (nothing)
    g.tick(0); // spawn the next piece
    assert_eq!(g.phase(), Phase::Active);
    // whatever spawned, the first O still sits on the floor
    let grid = g.grid();
    assert!(matches!(grid.cell(4, 0), Cell::Filled(_)));
    assert!(matches!(grid.cell(5, 1), Cell::Filled(_)));
}
