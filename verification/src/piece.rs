//! The falling piece: its kind, rotation state and anchor position, and the
//! static offset table that maps each (kind, rotation) pair to the four cells
//! the piece occupies relative to its anchor.

use vstd::prelude::*;

verus! {

/// One of the seven tetromino shapes.
#[derive(Clone, Copy, Debug, PartialEq, Eq, Structural)]
pub enum TetrominoKind {
    I,
    J,
    L,
    O,
    T,
    S,
    Z,
}

/// Rotation state of a piece, in steps of a quarter turn; `R270` advanced
/// clockwise by one step wraps back to `R0`.
#[derive(Clone, Copy, Debug, PartialEq, Eq, Structural)]
pub enum RotationState {
    R0,
    R90,
    R180,
    R270,
}

/// Direction of a rotation command.
#[derive(Clone, Copy, Debug, PartialEq, Eq, Structural)]
pub enum RotateDir {
    Cw,
    Ccw,
}

/// The falling piece: kind, rotation state and the board coordinate of its
/// anchor (the origin of the relative offset table).  The four occupied cells
/// are always derived from `(kind, rot)` through the offset table, never
/// stored, so the geometry has a single source of truth.
#[derive(Clone, Copy, Debug, PartialEq, Eq, Structural)]
pub struct Piece {
    pub kind: TetrominoKind,
    pub rot: RotationState,
    pub x: i32,
    pub y: i32,
}

/// The static geometry table: the four cells a piece of the given kind and
/// rotation occupies, relative to its anchor.  Each shape is rotated clockwise
/// inside its own bounding box (4x4 for I, 2x2 for O, 3x3 for the rest), so
/// every offset lies in `[0, 3] x [0, 3]`.  The O kind has true four-fold
/// symmetry, so its four entries are identical across rotations.
pub open spec fn offsets_spec(k: TetrominoKind, r: RotationState) -> Seq<(i32, i32)> {
    match (k, r) {
        (TetrominoKind::I, RotationState::R0) => seq![(0i32, 0i32), (1i32, 0i32), (2i32, 0i32), (3i32, 0i32)],
        (TetrominoKind::I, RotationState::R90) => seq![(0i32, 0i32), (0i32, 1i32), (0i32, 2i32), (0i32, 3i32)],
        (TetrominoKind::I, RotationState::R180) => seq![(0i32, 3i32), (1i32, 3i32), (2i32, 3i32), (3i32, 3i32)],
        (TetrominoKind::I, RotationState::R270) => seq![(3i32, 0i32), (3i32, 1i32), (3i32, 2i32), (3i32, 3i32)],
        (TetrominoKind::J, RotationState::R0) => seq![(0i32, 0i32), (0i32, 1i32), (1i32, 0i32), (2i32, 0i32)],
        (TetrominoKind::J, RotationState::R90) => seq![(0i32, 0i32), (0i32, 1i32), (0i32, 2i32), (1i32, 2i32)],
        (TetrominoKind::J, RotationState::R180) => seq![(0i32, 2i32), (1i32, 2i32), (2i32, 1i32), (2i32, 2i32)],
        (TetrominoKind::J, RotationState::R270) => seq![(1i32, 0i32), (2i32, 0i32), (2i32, 1i32), (2i32, 2i32)],
        (TetrominoKind::L, RotationState::R0) => seq![(0i32, 0i32), (1i32, 0i32), (2i32, 0i32), (2i32, 1i32)],
        (TetrominoKind::L, RotationState::R90) => seq![(0i32, 0i32), (0i32, 1i32), (0i32, 2i32), (1i32, 0i32)],
        (TetrominoKind::L, RotationState::R180) => seq![(0i32, 1i32), (0i32, 2i32), (1i32, 2i32), (2i32, 2i32)],
        (TetrominoKind::L, RotationState::R270) => seq![(1i32, 2i32), (2i32, 0i32), (2i32, 1i32), (2i32, 2i32)],
        (TetrominoKind::O, RotationState::R0) => seq![(0i32, 0i32), (0i32, 1i32), (1i32, 0i32), (1i32, 1i32)],
        (TetrominoKind::O, RotationState::R90) => seq![(0i32, 0i32), (0i32, 1i32), (1i32, 0i32), (1i32, 1i32)],
        (TetrominoKind::O, RotationState::R180) => seq![(0i32, 0i32), (0i32, 1i32), (1i32, 0i32), (1i32, 1i32)],
        (TetrominoKind::O, RotationState::R270) => seq![(0i32, 0i32), (0i32, 1i32), (1i32, 0i32), (1i32, 1i32)],
        (TetrominoKind::T, RotationState::R0) => seq![(0i32, 0i32), (1i32, 0i32), (1i32, 1i32), (2i32, 0i32)],
        (TetrominoKind::T, RotationState::R90) => seq![(0i32, 0i32), (0i32, 1i32), (0i32, 2i32), (1i32, 1i32)],
        (TetrominoKind::T, RotationState::R180) => seq![(0i32, 2i32), (1i32, 1i32), (1i32, 2i32), (2i32, 2i32)],
        (TetrominoKind::T, RotationState::R270) => seq![(1i32, 1i32), (2i32, 0i32), (2i32, 1i32), (2i32, 2i32)],
        (TetrominoKind::S, RotationState::R0) => seq![(0i32, 0i32), (1i32, 0i32), (1i32, 1i32), (2i32, 1i32)],
        (TetrominoKind::S, RotationState::R90) => seq![(0i32, 1i32), (0i32, 2i32), (1i32, 0i32), (1i32, 1i32)],
        (TetrominoKind::S, RotationState::R180) => seq![(0i32, 1i32), (1i32, 1i32), (1i32, 2i32), (2i32, 2i32)],
        (TetrominoKind::S, RotationState::R270) => seq![(1i32, 1i32), (1i32, 2i32), (2i32, 0i32), (2i32, 1i32)],
        (TetrominoKind::Z, RotationState::R0) => seq![(0i32, 1i32), (1i32, 0i32), (1i32, 1i32), (2i32, 0i32)],
        (TetrominoKind::Z, RotationState::R90) => seq![(0i32, 0i32), (0i32, 1i32), (1i32, 1i32), (1i32, 2i32)],
        (TetrominoKind::Z, RotationState::R180) => seq![(0i32, 2i32), (1i32, 1i32), (1i32, 2i32), (2i32, 1i32)],
        (TetrominoKind::Z, RotationState::R270) => seq![(1i32, 0i32), (1i32, 1i32), (2i32, 1i32), (2i32, 2i32)],
    }
}

/// Every entry of the offset table lies in `[0, 3] x [0, 3]`, and each
/// (kind, rotation) pair has exactly four entries.
pub proof fn lemma_offsets_in_box(k: TetrominoKind, r: RotationState)
    ensures
        offsets_spec(k, r).len() == 4,
        forall|i: int| 0 <= i < 4 ==> 0 <= (#[trigger] offsets_spec(k, r)[i]).0 <= 3
            && 0 <= offsets_spec(k, r)[i].1 <= 3,
{
    match (k, r) {
        (TetrominoKind::I, RotationState::R0) => {},
        (TetrominoKind::I, RotationState::R90) => {},
        (TetrominoKind::I, RotationState::R180) => {},
        (TetrominoKind::I, RotationState::R270) => {},
        (TetrominoKind::J, RotationState::R0) => {},
        (TetrominoKind::J, RotationState::R90) => {},
        (TetrominoKind::J, RotationState::R180) => {},
        (TetrominoKind::J, RotationState::R270) => {},
        (TetrominoKind::L, RotationState::R0) => {},
        (TetrominoKind::L, RotationState::R90) => {},
        (TetrominoKind::L, RotationState::R180) => {},
        (TetrominoKind::L, RotationState::R270) => {},
        (TetrominoKind::O, RotationState::R0) => {},
        (TetrominoKind::O, RotationState::R90) => {},
        (TetrominoKind::O, RotationState::R180) => {},
        (TetrominoKind::O, RotationState::R270) => {},
        (TetrominoKind::T, RotationState::R0) => {},
        (TetrominoKind::T, RotationState::R90) => {},
        (TetrominoKind::T, RotationState::R180) => {},
        (TetrominoKind::T, RotationState::R270) => {},
        (TetrominoKind::S, RotationState::R0) => {},
        (TetrominoKind::S, RotationState::R90) => {},
        (TetrominoKind::S, RotationState::R180) => {},
        (TetrominoKind::S, RotationState::R270) => {},
        (TetrominoKind::Z, RotationState::R0) => {},
        (TetrominoKind::Z, RotationState::R90) => {},
        (TetrominoKind::Z, RotationState::R180) => {},
        (TetrominoKind::Z, RotationState::R270) => {},
    }
}

/// No two entries of any offset table coincide: a piece always occupies four
/// distinct relative cells.
pub proof fn lemma_offsets_distinct(k: TetrominoKind, r: RotationState)
    ensures
        forall|i: int, j: int| 0 <= i < 4 && 0 <= j < 4 && i != j
            ==> #[trigger] offsets_spec(k, r)[i] != #[trigger] offsets_spec(k, r)[j],
{
    match (k, r) {
        (TetrominoKind::I, RotationState::R0) => {},
        (TetrominoKind::I, RotationState::R90) => {},
        (TetrominoKind::I, RotationState::R180) => {},
        (TetrominoKind::I, RotationState::R270) => {},
        (TetrominoKind::J, RotationState::R0) => {},
        (TetrominoKind::J, RotationState::R90) => {},
        (TetrominoKind::J, RotationState::R180) => {},
        (TetrominoKind::J, RotationState::R270) => {},
        (TetrominoKind::L, RotationState::R0) => {},
        (TetrominoKind::L, RotationState::R90) => {},
        (TetrominoKind::L, RotationState::R180) => {},
        (TetrominoKind::L, RotationState::R270) => {},
        (TetrominoKind::O, RotationState::R0) => {},
        (TetrominoKind::O, RotationState::R90) => {},
        (TetrominoKind::O, RotationState::R180) => {},
        (TetrominoKind::O, RotationState::R270) => {},
        (TetrominoKind::T, RotationState::R0) => {},
        (TetrominoKind::T, RotationState::R90) => {},
        (TetrominoKind::T, RotationState::R180) => {},
        (TetrominoKind::T, RotationState::R270) => {},
        (TetrominoKind::S, RotationState::R0) => {},
        (TetrominoKind::S, RotationState::R90) => {},
        (TetrominoKind::S, RotationState::R180) => {},
        (TetrominoKind::S, RotationState::R270) => {},
        (TetrominoKind::Z, RotationState::R0) => {},
        (TetrominoKind::Z, RotationState::R90) => {},
        (TetrominoKind::Z, RotationState::R180) => {},
        (TetrominoKind::Z, RotationState::R270) => {},
    }
}

/// The O kind's geometry is the same in every rotation state.
pub proof fn lemma_o_rotations_identical(r1: RotationState, r2: RotationState)
    ensures
        offsets_spec(TetrominoKind::O, r1) == offsets_spec(TetrominoKind::O, r2),
{
    assert(offsets_spec(TetrominoKind::O, r1) =~= offsets_spec(TetrominoKind::O, r2));
}

/// Rotation state one clockwise quarter turn after `r`.
pub open spec fn rot_cw(r: RotationState) -> RotationState {
    match r {
        RotationState::R0 => RotationState::R90,
        RotationState::R90 => RotationState::R180,
        RotationState::R180 => RotationState::R270,
        RotationState::R270 => RotationState::R0,
    }
}

/// Rotation state one counter-clockwise quarter turn after `r`.
pub open spec fn rot_ccw(r: RotationState) -> RotationState {
    match r {
        RotationState::R0 => RotationState::R270,
        RotationState::R90 => RotationState::R0,
        RotationState::R180 => RotationState::R90,
        RotationState::R270 => RotationState::R180,
    }
}

/// The piece `p` with its rotation state advanced one step in `dir`; kind and
/// anchor are untouched.
pub open spec fn rotated_spec(p: Piece, dir: RotateDir) -> Piece {
    Piece {
        kind: p.kind,
        rot: match dir {
            RotateDir::Cw => rot_cw(p.rot),
            RotateDir::Ccw => rot_ccw(p.rot),
        },
        x: p.x,
        y: p.y,
    }
}

/// The piece `p` with its anchor shifted by `(dx, dy)`; kind and rotation are
/// untouched.
pub open spec fn translated_spec(p: Piece, dx: int, dy: int) -> Piece {
    Piece { kind: p.kind, rot: p.rot, x: (p.x + dx) as i32, y: (p.y + dy) as i32 }
}

/// The four absolute board cells occupied by `p`: its anchor plus each entry
/// of the offset table for `(p.kind, p.rot)`.
pub open spec fn piece_cells(p: Piece) -> Seq<(int, int)> {
    offsets_spec(p.kind, p.rot).map_values(|o: (i32, i32)| (p.x + o.0 as int, p.y + o.1 as int))
}

/// The same four cells as concrete coordinates.  When the anchor is at most
/// `i32::MAX - 3` in each direction the sums cannot overflow, and this agrees
/// with `piece_cells` entry for entry.
pub open spec fn piece_cells_i32(p: Piece) -> Seq<(i32, i32)> {
    offsets_spec(p.kind, p.rot).map_values(
        |o: (i32, i32)| (((p.x + o.0) as i32), ((p.y + o.1) as i32)),
    )
}

/// Four clockwise quarter turns return a piece to its original rotation state
/// and anchor.
pub proof fn lemma_rotate_cw_four_times(p: Piece)
    ensures
        rotated_spec(rotated_spec(rotated_spec(rotated_spec(p, RotateDir::Cw), RotateDir::Cw),
            RotateDir::Cw), RotateDir::Cw) == p,
{
}

/// A counter-clockwise quarter turn undoes a clockwise one, and vice versa.
pub proof fn lemma_rotate_cw_ccw_inverse(p: Piece)
    ensures
        rotated_spec(rotated_spec(p, RotateDir::Cw), RotateDir::Ccw) == p,
        rotated_spec(rotated_spec(p, RotateDir::Ccw), RotateDir::Cw) == p,
{
}

/// A piece occupies exactly four cells, and no two of them coincide.
pub proof fn lemma_piece_cells_distinct(p: Piece)
    requires
        p.x <= i32::MAX - 3,
        p.y <= i32::MAX - 3,
    ensures
        piece_cells(p).len() == 4,
        forall|i: int, j: int| 0 <= i < 4 && 0 <= j < 4 && i != j
            ==> #[trigger] piece_cells(p)[i] != #[trigger] piece_cells(p)[j],
{
    lemma_offsets_in_box(p.kind, p.rot);
    lemma_offsets_distinct(p.kind, p.rot);
    assert forall|i: int, j: int| 0 <= i < 4 && 0 <= j < 4 && i != j
        implies #[trigger] piece_cells(p)[i] != #[trigger] piece_cells(p)[j] by {
        let oi = offsets_spec(p.kind, p.rot)[i];
        let oj = offsets_spec(p.kind, p.rot)[j];
        assert(oi != oj);
        assert(piece_cells(p)[i] == (p.x + oi.0 as int, p.y + oi.1 as int));
        assert(piece_cells(p)[j] == (p.x + oj.0 as int, p.y + oj.1 as int));
    }
}

impl Piece {
    /// The four absolute board cells occupied by this piece, as concrete
    /// coordinates: anchor plus offset table entry, a pure lookup.
    pub fn absolute_cells(&self) -> (v: Vec<(i32, i32)>)
        requires
            self.x <= i32::MAX - 3,
            self.y <= i32::MAX - 3,
        ensures
            v@.len() == 4,
            v@ == piece_cells_i32(*self),
            forall|i: int| 0 <= i < 4
                ==> ((#[trigger] v@[i]).0 as int, v@[i].1 as int) == piece_cells(*self)[i],
    {
        proof {
            lemma_offsets_in_box(self.kind, self.rot);
        }
        let offs = offsets(self.kind, self.rot);
        let mut v: Vec<(i32, i32)> = Vec::new();
        let mut i: usize = 0;
        while i < 4
            invariant
                offs@ == offsets_spec(self.kind, self.rot),
                offs@.len() == 4,
                forall|j: int| 0 <= j < 4 ==> 0 <= (#[trigger] offs@[j]).0 <= 3
                    && 0 <= offs@[j].1 <= 3,
                self.x <= i32::MAX - 3,
                self.y <= i32::MAX - 3,
                i <= 4,
                v@.len() == i,
                forall|j: int| 0 <= j < i
                    ==> ((#[trigger] v@[j]).0 as int, v@[j].1 as int) == piece_cells(*self)[j],
            decreases 4 - i,
        {
            let o = offs[i];
            v.push((self.x + o.0, self.y + o.1));
            i = i + 1;
        }
        proof {
            assert(v@ =~= piece_cells_i32(*self));
        }
        v
    }

    /// A copy of this piece rotated one quarter turn in `dir`; the receiver is
    /// unchanged, so a caller can validate the candidate before committing it.
    pub fn rotated(&self, dir: RotateDir) -> (p: Piece)
        ensures
            p == rotated_spec(*self, dir),
    {
        let r2 = match dir {
            RotateDir::Cw => match self.rot {
                RotationState::R0 => RotationState::R90,
                RotationState::R90 => RotationState::R180,
                RotationState::R180 => RotationState::R270,
                RotationState::R270 => RotationState::R0,
            },
            RotateDir::Ccw => match self.rot {
                RotationState::R0 => RotationState::R270,
                RotationState::R90 => RotationState::R0,
                RotationState::R180 => RotationState::R90,
                RotationState::R270 => RotationState::R180,
            },
        };
        Piece { kind: self.kind, rot: r2, x: self.x, y: self.y }
    }

    /// A copy of this piece with its anchor shifted by `(dx, dy)`; the
    /// receiver is unchanged.
    pub fn translated(&self, dx: i32, dy: i32) -> (p: Piece)
        requires
            i32::MIN <= self.x + dx <= i32::MAX,
            i32::MIN <= self.y + dy <= i32::MAX,
        ensures
            p == translated_spec(*self, dx as int, dy as int),
    {
        Piece { kind: self.kind, rot: self.rot, x: self.x + dx, y: self.y + dy }
    }
}

/// The color identifier shown for each piece kind; `Filled` grid cells record
/// it when a piece locks.  Identifiers are nonzero so that no filled cell is
/// confused with an empty one by callers that flatten the board.
pub open spec fn color_id_spec(k: TetrominoKind) -> u8 {
    match k {
        TetrominoKind::I => 1u8,
        TetrominoKind::J => 2u8,
        TetrominoKind::L => 3u8,
        TetrominoKind::O => 4u8,
        TetrominoKind::T => 5u8,
        TetrominoKind::S => 6u8,
        TetrominoKind::Z => 7u8,
    }
}

/// The color identifier for a piece kind.
pub fn color_id(k: TetrominoKind) -> (c: u8)
    ensures
        c == color_id_spec(k),
{
    match k {
        TetrominoKind::I => 1,
        TetrominoKind::J => 2,
        TetrominoKind::L => 3,
        TetrominoKind::O => 4,
        TetrominoKind::T => 5,
        TetrominoKind::S => 6,
        TetrominoKind::Z => 7,
    }
}

/// The offset table for `(k, r)` as concrete data, equal entry for entry to
/// `offsets_spec`.
pub fn offsets(k: TetrominoKind, r: RotationState) -> (v: Vec<(i32, i32)>)
    ensures
        v@ == offsets_spec(k, r),
{
    let v = match (k, r) {
        (TetrominoKind::I, RotationState::R0) => vec![(0i32, 0i32), (1i32, 0i32), (2i32, 0i32), (3i32, 0i32)],
        (TetrominoKind::I, RotationState::R90) => vec![(0i32, 0i32), (0i32, 1i32), (0i32, 2i32), (0i32, 3i32)],
        (TetrominoKind::I, RotationState::R180) => vec![(0i32, 3i32), (1i32, 3i32), (2i32, 3i32), (3i32, 3i32)],
        (TetrominoKind::I, RotationState::R270) => vec![(3i32, 0i32), (3i32, 1i32), (3i32, 2i32), (3i32, 3i32)],
        (TetrominoKind::J, RotationState::R0) => vec![(0i32, 0i32), (0i32, 1i32), (1i32, 0i32), (2i32, 0i32)],
        (TetrominoKind::J, RotationState::R90) => vec![(0i32, 0i32), (0i32, 1i32), (0i32, 2i32), (1i32, 2i32)],
        (TetrominoKind::J, RotationState::R180) => vec![(0i32, 2i32), (1i32, 2i32), (2i32, 1i32), (2i32, 2i32)],
        (TetrominoKind::J, RotationState::R270) => vec![(1i32, 0i32), (2i32, 0i32), (2i32, 1i32), (2i32, 2i32)],
        (TetrominoKind::L, RotationState::R0) => vec![(0i32, 0i32), (1i32, 0i32), (2i32, 0i32), (2i32, 1i32)],
        (TetrominoKind::L, RotationState::R90) => vec![(0i32, 0i32), (0i32, 1i32), (0i32, 2i32), (1i32, 0i32)],
        (TetrominoKind::L, RotationState::R180) => vec![(0i32, 1i32), (0i32, 2i32), (1i32, 2i32), (2i32, 2i32)],
        (TetrominoKind::L, RotationState::R270) => vec![(1i32, 2i32), (2i32, 0i32), (2i32, 1i32), (2i32, 2i32)],
        (TetrominoKind::O, _) => vec![(0i32, 0i32), (0i32, 1i32), (1i32, 0i32), (1i32, 1i32)],
        (TetrominoKind::T, RotationState::R0) => vec![(0i32, 0i32), (1i32, 0i32), (1i32, 1i32), (2i32, 0i32)],
        (TetrominoKind::T, RotationState::R90) => vec![(0i32, 0i32), (0i32, 1i32), (0i32, 2i32), (1i32, 1i32)],
        (TetrominoKind::T, RotationState::R180) => vec![(0i32, 2i32), (1i32, 1i32), (1i32, 2i32), (2i32, 2i32)],
        (TetrominoKind::T, RotationState::R270) => vec![(1i32, 1i32), (2i32, 0i32), (2i32, 1i32), (2i32, 2i32)],
        (TetrominoKind::S, RotationState::R0) => vec![(0i32, 0i32), (1i32, 0i32), (1i32, 1i32), (2i32, 1i32)],
        (TetrominoKind::S, RotationState::R90) => vec![(0i32, 1i32), (0i32, 2i32), (1i32, 0i32), (1i32, 1i32)],
        (TetrominoKind::S, RotationState::R180) => vec![(0i32, 1i32), (1i32, 1i32), (1i32, 2i32), (2i32, 2i32)],
        (TetrominoKind::S, RotationState::R270) => vec![(1i32, 1i32), (1i32, 2i32), (2i32, 0i32), (2i32, 1i32)],
        (TetrominoKind::Z, RotationState::R0) => vec![(0i32, 1i32), (1i32, 0i32), (1i32, 1i32), (2i32, 0i32)],
        (TetrominoKind::Z, RotationState::R90) => vec![(0i32, 0i32), (0i32, 1i32), (1i32, 1i32), (1i32, 2i32)],
        (TetrominoKind::Z, RotationState::R180) => vec![(0i32, 2i32), (1i32, 1i32), (1i32, 2i32), (2i32, 1i32)],
        (TetrominoKind::Z, RotationState::R270) => vec![(1i32, 0i32), (1i32, 1i32), (2i32, 1i32), (2i32, 2i32)],
    };
    proof {
        assert(v@ =~= offsets_spec(k, r));
    }
    v
}

} // verus!
