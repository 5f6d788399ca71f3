//! The top-level state machine: it owns the board, the falling piece, the
//! spawn queue and the timers, and advances them through `tick` and
//! `apply_command`.  Every transition is mirrored by a specification function
//! (`step_tick`, `step_command`), and each entry point proves that the new
//! state is exactly the mirrored one.

use vstd::prelude::*;

use crate::collision::{is_legal, legal_spec, lemma_legal_anchor_bounds, lemma_can_lock_iff_legal};
use crate::fall::{
    dropped_spec, gravity_spec, lemma_dropped_grounded, FallController, FALL_INTERVAL_MS,
    LOCK_DELAY_MS,
};
use crate::grid::{
    cleared_rows, full_count, grid_wf, lemma_kept_rows_len, rows_locked, Cell, Grid, GridModel,
    MAX_DIM,
};
use crate::grid::empty_row;
use crate::piece::{
    color_id, color_id_spec, piece_cells_i32, rotated_spec, translated_spec, Piece, RotateDir,
    TetrominoKind,
};
use crate::spawn::{
    kind_for, make_spawn_piece, rng_next_spec, spawn_piece, SpawnController,
};

verus! {

/// Where the state machine stands: see the transition table in the
/// documentation of `step_tick` and `step_command`.
#[derive(Clone, Copy, Debug, PartialEq, Eq, Structural)]
pub enum Phase {
    Spawning,
    Active,
    Locking,
    Clearing,
    GameOver,
}

/// A discrete player command.  Commands take effect only while a piece is
/// active or in its lock-delay grace period.
#[derive(Clone, Copy, Debug, PartialEq, Eq, Structural)]
pub enum Command {
    MoveLeft,
    MoveRight,
    RotateCw,
    RotateCcw,
    SoftDrop,
    HardDrop,
}

/// Mathematical model of a `GameState`.
#[verifier::ext_equal]
pub ghost struct GameModel {
    pub grid: GridModel,
    pub piece: Option<Piece>,
    pub queue: Seq<TetrominoKind>,
    pub rng: u64,
    pub fall_timer: u64,
    pub lock_timer: u64,
    pub phase: Phase,
    pub last_clear_count: int,
}

/// The state invariant: the board is well formed, the queue is never empty,
/// the timers sit below their deadlines, a piece exists exactly in the
/// `Active` and `Locking` phases, and an existing piece always stands on a
/// legal placement.
pub open spec fn wf_model(m: GameModel) -> bool {
    &&& grid_wf(m.grid)
    &&& m.queue.len() >= 1
    &&& m.fall_timer < FALL_INTERVAL_MS
    &&& m.lock_timer < LOCK_DELAY_MS
    &&& match m.piece {
        Some(p) => (m.phase == Phase::Active || m.phase == Phase::Locking) && legal_spec(
            m.grid,
            p,
        ),
        None => m.phase != Phase::Active && m.phase != Phase::Locking,
    }
    &&& 0 <= m.last_clear_count <= m.grid.height
}

/// The candidate placement a command asks for, before any legality check.
pub open spec fn command_candidate(g: GridModel, p: Piece, cmd: Command) -> Piece {
    match cmd {
        Command::MoveLeft => translated_spec(p, -1, 0),
        Command::MoveRight => translated_spec(p, 1, 0),
        Command::RotateCw => rotated_spec(p, RotateDir::Cw),
        Command::RotateCcw => rotated_spec(p, RotateDir::Ccw),
        Command::SoftDrop => translated_spec(p, 0, -1),
        Command::HardDrop => dropped_spec(g, p),
    }
}

/// The state after piece `p` locks where it stands: its four cells are merged
/// into the board with its kind's color, the piece is discarded, the timers
/// restart, and the machine moves to `Clearing`.
pub open spec fn locked_model(m: GameModel, p: Piece) -> GameModel {
    GameModel {
        grid: GridModel {
            width: m.grid.width,
            height: m.grid.height,
            rows: rows_locked(m.grid.rows, piece_cells_i32(p), color_id_spec(p.kind)),
        },
        piece: None,
        phase: Phase::Clearing,
        fall_timer: 0,
        lock_timer: 0,
        ..m
    }
}

/// The state after a spawn attempt: the queue head becomes a piece at the
/// fixed spawn anchor and the queue is refilled; if the placement is legal
/// the piece becomes active, otherwise the board has overflowed and the game
/// is over.
pub open spec fn spawn_step(m: GameModel) -> GameModel {
    let k = m.queue[0];
    let p = spawn_piece(k, m.grid.width, m.grid.height);
    let rng2 = rng_next_spec(m.rng);
    let q2 = m.queue.drop_first().push(kind_for(rng2));
    if legal_spec(m.grid, p) {
        GameModel {
            piece: Some(p),
            phase: Phase::Active,
            fall_timer: 0,
            lock_timer: 0,
            queue: q2,
            rng: rng2,
            ..m
        }
    } else {
        GameModel { piece: None, phase: Phase::GameOver, queue: q2, rng: rng2, ..m }
    }
}

/// One call of `tick(dt)`:
/// - `GameOver` absorbs everything;
/// - `Spawning` performs the spawn attempt of `spawn_step`;
/// - `Clearing` removes the full rows, records how many, and moves to
///   `Spawning`;
/// - `Active` lets gravity act: the piece steps down once per full fall
///   interval accumulated; if a step is rejected the piece grounds and the
///   machine enters `Locking` with a fresh lock timer;
/// - `Locking` accumulates the lock timer and locks the piece once the lock
///   delay has elapsed.
pub open spec fn step_tick(m: GameModel, dt: u64) -> GameModel {
    match m.phase {
        Phase::GameOver => m,
        Phase::Spawning => spawn_step(m),
        Phase::Clearing => GameModel {
            grid: GridModel {
                width: m.grid.width,
                height: m.grid.height,
                rows: cleared_rows(m.grid.rows, m.grid.width),
            },
            last_clear_count: full_count(m.grid.rows, m.grid.width),
            phase: Phase::Spawning,
            ..m
        },
        Phase::Active => match m.piece {
            None => m,
            Some(p) => {
                let r = gravity_spec(m.grid, p, m.fall_timer + dt);
                if r.2 {
                    GameModel {
                        piece: Some(r.0),
                        phase: Phase::Locking,
                        fall_timer: 0,
                        lock_timer: 0,
                        ..m
                    }
                } else {
                    GameModel { piece: Some(r.0), fall_timer: r.1 as u64, ..m }
                }
            },
        },
        Phase::Locking => match m.piece {
            None => m,
            Some(p) => {
                if m.lock_timer + dt >= LOCK_DELAY_MS {
                    locked_model(m, p)
                } else {
                    GameModel { lock_timer: (m.lock_timer + dt) as u64, ..m }
                }
            },
        },
    }
}

/// One call of `apply_command(cmd)`: with no piece (spawning, clearing or
/// game over) every command is a no-op.  A move or rotation commits its
/// candidate only when legal, and any successful move resets the lock timer
/// and rejoins `Active`.  A rejected soft drop grounds the piece.  A hard
/// drop sinks the piece as far as it goes and locks it at once, bypassing the
/// lock delay.  Rotation tries the naive rotated placement only: no kick
/// offsets.
pub open spec fn step_command(m: GameModel, cmd: Command) -> GameModel {
    match m.piece {
        None => m,
        Some(p) => match cmd {
            Command::MoveLeft | Command::MoveRight | Command::RotateCw | Command::RotateCcw => {
                let c = command_candidate(m.grid, p, cmd);
                if legal_spec(m.grid, c) {
                    GameModel { piece: Some(c), phase: Phase::Active, lock_timer: 0, ..m }
                } else {
                    m
                }
            },
            Command::SoftDrop => {
                let c = translated_spec(p, 0, -1);
                if legal_spec(m.grid, c) {
                    GameModel { piece: Some(c), phase: Phase::Active, lock_timer: 0, ..m }
                } else if m.phase == Phase::Locking {
                    m
                } else {
                    GameModel { phase: Phase::Locking, fall_timer: 0, lock_timer: 0, ..m }
                }
            },
            Command::HardDrop => locked_model(m, dropped_spec(m.grid, p)),
        },
    }
}

/// The state `new_game` hands back: an empty board, no piece, one queued
/// kind drawn from the seed, zeroed timers, in `Spawning`.
pub open spec fn initial_model(width: int, height: int, seed: u64) -> GameModel {
    GameModel {
        grid: GridModel {
            width,
            height,
            rows: Seq::new(height as nat, |y: int| empty_row(width)),
        },
        piece: None,
        queue: seq![kind_for(rng_next_spec(seed))],
        rng: rng_next_spec(seed),
        fall_timer: 0,
        lock_timer: 0,
        phase: Phase::Spawning,
        last_clear_count: 0,
    }
}

/// The simulation state: one board, at most one falling piece, the spawn
/// queue and the timers.  All mutation goes through `tick` and
/// `apply_command`; everything else is a read-only query.
pub struct GameState {
    grid: Grid,
    piece: Option<Piece>,
    spawner: SpawnController,
    fall: FallController,
    phase: Phase,
    last_clear_count: usize,
}

impl View for GameState {
    type V = GameModel;

    closed spec fn view(&self) -> GameModel {
        GameModel {
            grid: self.grid@,
            piece: self.piece,
            queue: self.spawner@.queue,
            rng: self.spawner@.rng,
            fall_timer: self.fall.fall_timer,
            lock_timer: self.fall.lock_timer,
            phase: self.phase,
            last_clear_count: self.last_clear_count as int,
        }
    }
}

impl GameState {
    /// The state invariant; see `wf_model`.
    pub open spec fn wf(&self) -> bool {
        wf_model(self@)
    }

    /// A fresh game on an empty `width` by `height` board.  The machine
    /// starts in `Spawning`: the first `tick` spawns the first piece, whose
    /// kind is drawn deterministically from `seed`.
    pub fn new_game(width: usize, height: usize, seed: u64) -> (g: GameState)
        requires
            1 <= width <= MAX_DIM,
            1 <= height <= MAX_DIM,
        ensures
            g.wf(),
            g@ == initial_model(width as int, height as int, seed),
    {
        let g = GameState {
            grid: Grid::new(width, height),
            piece: None,
            spawner: SpawnController::new(seed),
            fall: FallController::new(),
            phase: Phase::Spawning,
            last_clear_count: 0,
        };
        proof {
            assert(g@ =~~= initial_model(width as int, height as int, seed));
        }
        g
    }

    /// The current phase.
    pub fn phase(&self) -> (p: Phase)
        ensures
            p == self@.phase,
    {
        self.phase
    }

    /// The falling piece, if one is active.
    pub fn active_piece(&self) -> (p: Option<Piece>)
        ensures
            p == self@.piece,
    {
        self.piece
    }

    /// How many rows the most recent clearing pass removed.
    pub fn last_clear_count(&self) -> (c: usize)
        ensures
            c as int == self@.last_clear_count,
    {
        self.last_clear_count
    }

    /// The board, for read-only queries.
    pub fn grid(&self) -> (g: &Grid)
        ensures
            g@ == self@.grid,
    {
        &self.grid
    }

    /// The accumulated fall and lock timers, in milliseconds.
    pub fn timers(&self) -> (t: (u64, u64))
        ensures
            t.0 == self@.fall_timer,
            t.1 == self@.lock_timer,
    {
        (self.fall.fall_timer, self.fall.lock_timer)
    }

    /// Overwrite one board cell while no piece is active, for callers that
    /// set up a position directly (a saved board, a test fixture).
    pub fn setup_cell(&mut self, x: usize, y: usize, c: Cell)
        requires
            old(self).wf(),
            old(self)@.piece is None,
            x < old(self)@.grid.width,
            y < old(self)@.grid.height,
        ensures
            final(self).wf(),
            final(self)@ == (GameModel {
                grid: GridModel {
                    width: old(self)@.grid.width,
                    height: old(self)@.grid.height,
                    rows: old(self)@.grid.rows.update(
                        y as int,
                        old(self)@.grid.rows[y as int].update(x as int, c),
                    ),
                },
                ..old(self)@
            }),
    {
        self.grid.set_cell(x, y, c);
        proof {
            assert(self@ =~~= (GameModel {
                grid: GridModel {
                    width: old(self)@.grid.width,
                    height: old(self)@.grid.height,
                    rows: old(self)@.grid.rows.update(
                        y as int,
                        old(self)@.grid.rows[y as int].update(x as int, c),
                    ),
                },
                ..old(self)@
            }));
        }
    }

    /// A copy of the board's rows, bottom row first.
    pub fn grid_snapshot(&self) -> (rows: Vec<Vec<Cell>>)
        requires
            self.wf(),
        ensures
            rows@.len() == self@.grid.height,
            forall|y: int| 0 <= y < self@.grid.height
                ==> (#[trigger] rows@[y])@ == self@.grid.rows[y],
    {
        let height = self.grid.height();
        let mut rows: Vec<Vec<Cell>> = Vec::new();
        let mut y: usize = 0;
        while y < height
            invariant
                self.wf(),
                height as int == self@.grid.height,
                y <= height,
                rows@.len() == y,
                forall|yy: int| 0 <= yy < y ==> (#[trigger] rows@[yy])@ == self@.grid.rows[yy],
            decreases height - y,
        {
            rows.push(self.grid.copy_row(y));
            y = y + 1;
        }
        rows
    }

    /// Commit `cand` as the new piece placement if it is legal; a successful
    /// move resets the lock timer and rejoins `Active`.
    fn try_commit(&mut self, cand: Piece)
        requires
            old(self).wf(),
            cand.x <= i32::MAX - 3,
            cand.y <= i32::MAX - 3,
        ensures
            final(self).wf(),
            final(self)@ == (if legal_spec(old(self)@.grid, cand) {
                (GameModel {
                    piece: Some(cand),
                    phase: Phase::Active,
                    lock_timer: 0,
                    ..old(self)@
                })
            } else {
                old(self)@
            }),
    {
        if is_legal(&self.grid, &cand) {
            self.piece = Some(cand);
            self.phase = Phase::Active;
            self.fall.lock_timer = 0;
            proof {
                assert(self@ =~~= (GameModel {
                    piece: Some(cand),
                    phase: Phase::Active,
                    lock_timer: 0,
                    ..old(self)@
                }));
            }
        }
    }

    /// The resting place of `p` under a hard drop on the current board.
    fn drop_to_rest(&self, p: Piece) -> (q: Piece)
        requires
            grid_wf(self@.grid),
            legal_spec(self@.grid, p),
        ensures
            q == dropped_spec(self@.grid, p),
    {
        let mut cur = p;
        let mut done = false;
        while !done
            invariant
                grid_wf(self@.grid),
                legal_spec(self@.grid, cur),
                dropped_spec(self@.grid, cur) == dropped_spec(self@.grid, p),
                done ==> dropped_spec(self@.grid, cur) == cur,
            decreases (if done { 0int } else { cur.y + 4 }),
        {
            proof {
                lemma_legal_anchor_bounds(self@.grid, cur);
            }
            let cand = cur.translated(0, -1);
            if is_legal(&self.grid, &cand) {
                cur = cand;
            } else {
                done = true;
            }
        }
        cur
    }

    /// Merge `p`'s cells into the board and move to `Clearing`.  The
    /// collision invariant guarantees the merge cannot hit a filled or
    /// out-of-bounds cell.
    fn lock_piece_now(&mut self, p: Piece)
        requires
            old(self).wf(),
            legal_spec(old(self)@.grid, p),
        ensures
            final(self).wf(),
            final(self)@ == locked_model(old(self)@, p),
    {
        proof {
            lemma_legal_anchor_bounds(self.grid@, p);
            lemma_can_lock_iff_legal(self.grid@, p);
        }
        let cells = p.absolute_cells();
        let color = color_id(p.kind);
        let ok = self.grid.lock_cells(&cells, color);
        self.piece = None;
        self.phase = Phase::Clearing;
        self.fall.fall_timer = 0;
        self.fall.lock_timer = 0;
        proof {
            assert(ok);
            assert(self@ =~~= locked_model(old(self)@, p));
        }
    }

    /// Advance simulated time by `dt` milliseconds: exactly the transition
    /// `step_tick` describes.
    pub fn tick(&mut self, dt: u32)
        requires
            old(self).wf(),
        ensures
            final(self).wf(),
            final(self)@ == step_tick(old(self)@, dt as u64),
    {
        match self.phase {
            Phase::GameOver => {},
            Phase::Spawning => {
                let width = self.grid.width();
                let height = self.grid.height();
                let k = self.spawner.next();
                let p = make_spawn_piece(k, width, height);
                if is_legal(&self.grid, &p) {
                    self.piece = Some(p);
                    self.phase = Phase::Active;
                    self.fall.fall_timer = 0;
                    self.fall.lock_timer = 0;
                } else {
                    self.piece = None;
                    self.phase = Phase::GameOver;
                }
                proof {
                    assert(self@ =~~= step_tick(old(self)@, dt as u64));
                }
            },
            Phase::Clearing => {
                let count = self.grid.clear_full_rows();
                proof {
                    lemma_kept_rows_len(old(self)@.grid.rows, old(self)@.grid.width);
                }
                self.last_clear_count = count;
                self.phase = Phase::Spawning;
                proof {
                    assert(self@ =~~= step_tick(old(self)@, dt as u64));
                }
            },
            Phase::Active => {
                if let Some(p0) = self.piece {
                    let mut p = p0;
                    let mut timer: u64 = self.fall.fall_timer + dt as u64;
                    let ghost g = self.grid@;
                    let ghost t0: int = timer as int;
                    let mut grounded = false;
                    while !grounded && timer >= FALL_INTERVAL_MS
                        invariant
                            grid_wf(g),
                            g == self.grid@,
                            legal_spec(g, p),
                            grounded ==> gravity_spec(g, p0, t0) == (p, 0int, true),
                            !grounded ==> gravity_spec(g, p0, t0) == gravity_spec(
                                g,
                                p,
                                timer as int,
                            ),
                        decreases timer,
                    {
                        proof {
                            lemma_legal_anchor_bounds(g, p);
                        }
                        let cand = p.translated(0, -1);
                        if is_legal(&self.grid, &cand) {
                            p = cand;
                            timer = timer - FALL_INTERVAL_MS;
                        } else {
                            grounded = true;
                            timer = 0;
                        }
                    }
                    if grounded {
                        self.piece = Some(p);
                        self.phase = Phase::Locking;
                        self.fall.fall_timer = 0;
                        self.fall.lock_timer = 0;
                    } else {
                        self.piece = Some(p);
                        self.fall.fall_timer = timer;
                    }
                    proof {
                        assert(self@ =~~= step_tick(old(self)@, dt as u64));
                    }
                }
            },
            Phase::Locking => {
                if let Some(p) = self.piece {
                    let t = self.fall.lock_timer + dt as u64;
                    if t >= LOCK_DELAY_MS {
                        self.lock_piece_now(p);
                    } else {
                        self.fall.lock_timer = t;
                    }
                    proof {
                        assert(self@ =~~= step_tick(old(self)@, dt as u64));
                    }
                }
            },
        }
    }

    /// Apply one player command: exactly the transition `step_command`
    /// describes.  Commands take effect only while a piece exists (`Active`
    /// or `Locking`); an illegal candidate placement leaves the state
    /// untouched.
    pub fn apply_command(&mut self, cmd: Command)
        requires
            old(self).wf(),
        ensures
            final(self).wf(),
            final(self)@ == step_command(old(self)@, cmd),
    {
        if let Some(p) = self.piece {
            proof {
                lemma_legal_anchor_bounds(self.grid@, p);
            }
            match cmd {
                Command::MoveLeft => {
                    let cand = p.translated(-1, 0);
                    self.try_commit(cand);
                },
                Command::MoveRight => {
                    let cand = p.translated(1, 0);
                    self.try_commit(cand);
                },
                Command::RotateCw => {
                    let cand = p.rotated(RotateDir::Cw);
                    self.try_commit(cand);
                },
                Command::RotateCcw => {
                    let cand = p.rotated(RotateDir::Ccw);
                    self.try_commit(cand);
                },
                Command::SoftDrop => {
                    let cand = p.translated(0, -1);
                    if is_legal(&self.grid, &cand) {
                        self.piece = Some(cand);
                        self.phase = Phase::Active;
                        self.fall.lock_timer = 0;
                    } else if self.phase == Phase::Locking {
                        // already grounded and counting down: nothing changes
                    } else {
                        self.phase = Phase::Locking;
                        self.fall.fall_timer = 0;
                        self.fall.lock_timer = 0;
                    }
                    proof {
                        assert(self@ =~~= step_command(old(self)@, cmd));
                    }
                },
                Command::HardDrop => {
                    proof {
                        lemma_dropped_grounded(self.grid@, p);
                    }
                    let target = self.drop_to_rest(p);
                    self.lock_piece_now(target);
                },
            }
        }
    }
}

/// A move or rotate command whose candidate placement is illegal is rejected:
/// the state, board included, is exactly what it was.
pub proof fn lemma_illegal_command_rejected(m: GameModel, cmd: Command)
    requires
        wf_model(m),
        cmd == Command::MoveLeft || cmd == Command::MoveRight || cmd == Command::RotateCw || cmd
            == Command::RotateCcw,
        match m.piece {
            Some(p) => !legal_spec(m.grid, command_candidate(m.grid, p, cmd)),
            None => true,
        },
    ensures
        step_command(m, cmd) == m,
{
}

/// Lock-delay reset: a piece that grounded and entered `Locking` does not
/// lock at the original countdown deadline if a legal lateral move comes in
/// first.  After the move the machine is back in `Active` with a zeroed lock
/// timer, and a further tick shorter than the lock delay cannot lock the
/// piece, no matter how much of the original delay had already elapsed.
pub proof fn lemma_lock_delay_reset(m: GameModel, cmd: Command, dt: u64)
    requires
        wf_model(m),
        m.phase == Phase::Locking,
        cmd == Command::MoveLeft || cmd == Command::MoveRight,
        match m.piece {
            Some(p) => legal_spec(m.grid, command_candidate(m.grid, p, cmd)),
            None => false,
        },
        dt < LOCK_DELAY_MS,
    ensures
        step_command(m, cmd).phase == Phase::Active,
        step_command(m, cmd).lock_timer == 0,
        step_tick(step_command(m, cmd), dt).phase != Phase::Clearing,
        step_tick(step_command(m, cmd), dt).piece is Some,
        step_tick(step_command(m, cmd), dt).grid == m.grid,
{
    let m2 = step_command(m, cmd);
    let p2 = m2.piece.unwrap();
    let r = gravity_spec(m2.grid, p2, m2.fall_timer + dt);
    if r.2 {
    } else {
    }
}

/// `GameOver` is terminal and idempotent: every further tick and command
/// leaves the state exactly as it is.
pub proof fn lemma_game_over_absorbing(m: GameModel, cmd: Command, dt: u64)
    requires
        wf_model(m),
        m.phase == Phase::GameOver,
    ensures
        step_tick(m, dt) == m,
        step_command(m, cmd) == m,
{
}

} // verus!
