//! Gravity and lock-delay timing: the accumulated fall and lock timers, the
//! constants that drive them, and the specification of what repeated gravity
//! steps and a hard drop do to a piece.

use vstd::prelude::*;

use crate::collision::{lemma_legal_anchor_bounds, legal_spec};
use crate::grid::{grid_wf, GridModel};
use crate::piece::{translated_spec, Piece};

verus! {

/// Milliseconds between automatic downward steps of the falling piece.
pub const FALL_INTERVAL_MS: u64 = 1000;

/// Milliseconds a grounded piece may still be moved before it locks.
pub const LOCK_DELAY_MS: u64 = 500;

/// Gravity timing state: `fall_timer` accumulates time toward the next
/// automatic downward step while the piece can fall; `lock_timer` accumulates
/// time toward the lock deadline while it cannot.
pub struct FallController {
    pub fall_timer: u64,
    pub lock_timer: u64,
}

impl FallController {
    /// Fresh timers, both at zero.
    pub fn new() -> (f: FallController)
        ensures
            f.fall_timer == 0,
            f.lock_timer == 0,
    {
        FallController { fall_timer: 0, lock_timer: 0 }
    }
}

/// The result of letting an accumulated fall timer `t` act on piece `p`:
/// while a full interval is accumulated and the cell below is free, the piece
/// steps down one row and the timer loses one interval.  Yields the final
/// piece, the leftover timer, and whether the piece grounded (a downward step
/// was rejected), in which case the leftover timer is discarded and the lock
/// countdown starts from zero.
pub open spec fn gravity_spec(g: GridModel, p: Piece, t: int) -> (Piece, int, bool)
    decreases t,
{
    if t < FALL_INTERVAL_MS as int {
        (p, t, false)
    } else if legal_spec(g, translated_spec(p, 0, -1)) {
        gravity_spec(g, translated_spec(p, 0, -1), t - FALL_INTERVAL_MS as int)
    } else {
        (p, 0int, true)
    }
}

/// The resting place of piece `p` under a hard drop: shifted down one row at
/// a time while the placement below stays legal.  The anchor guard keeps the
/// recursion well-founded; it never bites, since a legal piece's anchor row
/// is at least `-3`.
pub open spec fn dropped_spec(g: GridModel, p: Piece) -> Piece
    decreases p.y + 4,
{
    if p.y >= -3 && legal_spec(g, translated_spec(p, 0, -1)) {
        dropped_spec(g, translated_spec(p, 0, -1))
    } else {
        p
    }
}

/// A hard drop ends on a legal placement of the same kind, rotation and
/// column, no higher than it started, and the piece is grounded there: one
/// more step down would be illegal.
pub proof fn lemma_dropped_grounded(g: GridModel, p: Piece)
    requires
        grid_wf(g),
        legal_spec(g, p),
    ensures
        legal_spec(g, dropped_spec(g, p)),
        !legal_spec(g, translated_spec(dropped_spec(g, p), 0, -1)),
        dropped_spec(g, p).kind == p.kind,
        dropped_spec(g, p).rot == p.rot,
        dropped_spec(g, p).x == p.x,
        dropped_spec(g, p).y <= p.y,
    decreases p.y + 4,
{
    lemma_legal_anchor_bounds(g, p);
    if legal_spec(g, translated_spec(p, 0, -1)) {
        lemma_dropped_grounded(g, translated_spec(p, 0, -1));
    }
}

} // verus!
