//! Legality of a candidate piece placement against the board: the pure
//! predicate the state machine consults before committing any piece mutation.
//!
//! Rotations use the naive policy: only the rotated placement itself is
//! tried, with no kick offsets, and an illegal rotation is simply rejected.

use vstd::prelude::*;

use crate::grid::{occupied_spec, can_lock, grid_wf, Grid, GridModel};
use crate::piece::{lemma_offsets_in_box, piece_cells, piece_cells_i32, Piece};

verus! {

/// A placement is legal when none of the piece's four absolute cells is
/// occupied: all four lie inside the board, on `Empty` cells.
pub open spec fn legal_spec(g: GridModel, p: Piece) -> bool {
    forall|i: int| 0 <= i < 4
        ==> !occupied_spec(g, (#[trigger] piece_cells(p)[i]).0, piece_cells(p)[i].1)
}

/// A legal piece's anchor is boxed in by the board: offsets lie in
/// `[0, 3] x [0, 3]`, so the anchor sits at most three cells outside the
/// bottom-left corner and strictly inside the board on the top-right.
pub proof fn lemma_legal_anchor_bounds(g: GridModel, p: Piece)
    requires
        grid_wf(g),
        legal_spec(g, p),
    ensures
        -3 <= p.x < g.width,
        -3 <= p.y < g.height,
{
    lemma_offsets_in_box(p.kind, p.rot);
    assert(!occupied_spec(g, piece_cells(p)[0].0, piece_cells(p)[0].1));
    assert(piece_cells(p)[0].0 == p.x + offsets_spec_entry(p, 0).0 as int);
}

/// The offset table entry used by `piece_cells(p)[i]`, named so proofs can
/// speak of it.
pub open spec fn offsets_spec_entry(p: Piece, i: int) -> (i32, i32) {
    crate::piece::offsets_spec(p.kind, p.rot)[i]
}

/// For an anchor that cannot overflow, the concrete cell list of a piece is
/// lockable exactly when the placement is legal.
pub proof fn lemma_can_lock_iff_legal(g: GridModel, p: Piece)
    requires
        grid_wf(g),
        p.x <= i32::MAX - 3,
        p.y <= i32::MAX - 3,
    ensures
        can_lock(g, piece_cells_i32(p)) == legal_spec(g, p),
{
    lemma_offsets_in_box(p.kind, p.rot);
    assert forall|i: int| 0 <= i < 4 implies ((#[trigger] piece_cells_i32(p)[i]).0 as int,
        piece_cells_i32(p)[i].1 as int) == piece_cells(p)[i] by {
        assert(0 <= offsets_spec_entry(p, i).0 <= 3);
    }
    if can_lock(g, piece_cells_i32(p)) {
        assert forall|i: int| 0 <= i < 4 implies !occupied_spec(
            g,
            (#[trigger] piece_cells(p)[i]).0,
            piece_cells(p)[i].1,
        ) by {
            assert(0 <= (piece_cells_i32(p)[i]).0 < g.width);
        }
    }
    if legal_spec(g, p) {
        assert forall|i: int| 0 <= i < 4 implies 0 <= (#[trigger] piece_cells_i32(p)[i]).0
            < g.width && 0 <= piece_cells_i32(p)[i].1 < g.height && g.rows[piece_cells_i32(
            p,
        )[i].1 as int][piece_cells_i32(p)[i].0 as int] is Empty by {
            assert(!occupied_spec(g, piece_cells(p)[i].0, piece_cells(p)[i].1));
        }
    }
}

/// Whether placing `p` on `grid` is legal: true iff every one of the four
/// absolute cells is unoccupied.  Pure; mutates nothing.
pub fn is_legal(grid: &Grid, p: &Piece) -> (b: bool)
    requires
        grid.wf(),
        p.x <= i32::MAX - 3,
        p.y <= i32::MAX - 3,
    ensures
        b == legal_spec(grid@, *p),
{
    let cells = p.absolute_cells();
    let mut i: usize = 0;
    while i < 4
        invariant
            grid.wf(),
            cells@.len() == 4,
            forall|j: int| 0 <= j < 4
                ==> ((#[trigger] cells@[j]).0 as int, cells@[j].1 as int) == piece_cells(*p)[j],
            i <= 4,
            forall|j: int| 0 <= j < i
                ==> !occupied_spec(grid@, (#[trigger] piece_cells(*p)[j]).0, piece_cells(*p)[j].1),
        decreases 4 - i,
    {
        let c = cells[i];
        if grid.is_occupied(c.0, c.1) {
            assert(occupied_spec(grid@, piece_cells(*p)[i as int].0, piece_cells(*p)[i as int].1));
            return false;
        }
        i = i + 1;
    }
    true
}

} // verus!
