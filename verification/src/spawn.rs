//! Spawn policy: a queue of upcoming piece kinds, replenished one kind at a
//! time from a deterministic xorshift generator seeded by the caller, and the
//! fixed spawn placement of a fresh piece.  The queue is never empty when a
//! spawn is requested.

use vstd::prelude::*;

use crate::grid::MAX_DIM;
use crate::piece::{Piece, RotationState, TetrominoKind};

verus! {

/// One xorshift step of the pseudo-random state.
pub open spec fn rng_next_spec(s: u64) -> u64 {
    let a = s ^ (s << 13);
    let b = a ^ (a >> 7);
    b ^ (b << 17)
}

/// The piece kind drawn from a pseudo-random state, uniform over the residues
/// of seven.
pub open spec fn kind_for(s: u64) -> TetrominoKind {
    if s % 7 == 0 {
        TetrominoKind::I
    } else if s % 7 == 1 {
        TetrominoKind::J
    } else if s % 7 == 2 {
        TetrominoKind::L
    } else if s % 7 == 3 {
        TetrominoKind::O
    } else if s % 7 == 4 {
        TetrominoKind::T
    } else if s % 7 == 5 {
        TetrominoKind::S
    } else {
        TetrominoKind::Z
    }
}

/// Column of the fixed spawn anchor on a board `w` wide: one left of the
/// middle, so common boards center the piece.
pub open spec fn spawn_anchor_x(w: int) -> int {
    if w >= 2 {
        w / 2 - 1
    } else {
        0
    }
}

/// Row of the fixed spawn anchor on a board `h` tall: one below the top row,
/// so a fresh piece starts against the top of the board.
pub open spec fn spawn_anchor_y(h: int) -> int {
    if h >= 2 {
        h - 2
    } else {
        0
    }
}

/// A fresh piece of kind `k` at the fixed spawn anchor, unrotated.
pub open spec fn spawn_piece(k: TetrominoKind, w: int, h: int) -> Piece {
    Piece {
        kind: k,
        rot: RotationState::R0,
        x: spawn_anchor_x(w) as i32,
        y: spawn_anchor_y(h) as i32,
    }
}

/// A fresh piece of kind `k` at the fixed spawn anchor for a board of the
/// given dimensions, unrotated.
pub fn make_spawn_piece(k: TetrominoKind, width: usize, height: usize) -> (p: Piece)
    requires
        1 <= width <= MAX_DIM,
        1 <= height <= MAX_DIM,
    ensures
        p == spawn_piece(k, width as int, height as int),
{
    let x: i32 = if width >= 2 {
        (width / 2 - 1) as i32
    } else {
        0
    };
    let y: i32 = if height >= 2 {
        (height - 2) as i32
    } else {
        0
    };
    Piece { kind: k, rot: RotationState::R0, x, y }
}

/// Mathematical model of a `SpawnController`: the queued kinds, oldest first,
/// and the generator state.
#[verifier::ext_equal]
pub ghost struct SpawnModel {
    pub queue: Seq<TetrominoKind>,
    pub rng: u64,
}

/// Owns the queue of upcoming kinds and the generator that refills it.
pub struct SpawnController {
    queue: Vec<TetrominoKind>,
    rng: u64,
}

impl View for SpawnController {
    type V = SpawnModel;

    closed spec fn view(&self) -> SpawnModel {
        SpawnModel { queue: self.queue@, rng: self.rng }
    }
}

/// Advance the pseudo-random state by one xorshift step.
fn rng_next(s: u64) -> (r: u64)
    ensures
        r == rng_next_spec(s),
{
    let a = s ^ (s << 13u64);
    let b = a ^ (a >> 7u64);
    b ^ (b << 17u64)
}

/// The piece kind drawn from a pseudo-random state.
fn kind_from_state(s: u64) -> (k: TetrominoKind)
    ensures
        k == kind_for(s),
{
    let m = s % 7;
    if m == 0 {
        TetrominoKind::I
    } else if m == 1 {
        TetrominoKind::J
    } else if m == 2 {
        TetrominoKind::L
    } else if m == 3 {
        TetrominoKind::O
    } else if m == 4 {
        TetrominoKind::T
    } else if m == 5 {
        TetrominoKind::S
    } else {
        TetrominoKind::Z
    }
}

impl SpawnController {
    /// The queue holds at least one upcoming kind at all times.
    pub open spec fn wf(&self) -> bool {
        self@.queue.len() >= 1
    }

    /// A fresh controller: the generator is stepped once from `seed` and the
    /// queue starts with the kind it yields.
    pub fn new(seed: u64) -> (s: SpawnController)
        ensures
            s.wf(),
            s@.rng == rng_next_spec(seed),
            s@.queue == seq![kind_for(rng_next_spec(seed))],
    {
        let r = rng_next(seed);
        let mut queue: Vec<TetrominoKind> = Vec::new();
        queue.push(kind_from_state(r));
        proof {
            assert(queue@ =~= seq![kind_for(rng_next_spec(seed))]);
        }
        SpawnController { queue, rng: r }
    }

    /// Pop the next kind off the head of the queue and refill the tail with
    /// one freshly drawn kind, so the queue never runs empty.
    pub fn next(&mut self) -> (k: TetrominoKind)
        requires
            old(self).wf(),
        ensures
            final(self).wf(),
            k == old(self)@.queue[0],
            final(self)@.rng == rng_next_spec(old(self)@.rng),
            final(self)@.queue == old(self)@.queue.drop_first().push(
                kind_for(rng_next_spec(old(self)@.rng)),
            ),
    {
        let k = self.queue.remove(0);
        self.rng = rng_next(self.rng);
        let fresh = kind_from_state(self.rng);
        self.queue.push(fresh);
        proof {
            assert(self@.queue =~= old(self)@.queue.drop_first().push(
                kind_for(rng_next_spec(old(self)@.rng)),
            ));
        }
        k
    }
}

} // verus!
