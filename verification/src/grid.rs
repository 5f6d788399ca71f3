//! The board of locked cells: occupancy queries, locking a piece's cells in,
//! and full-row clearing with downward compaction.  Row 0 is the bottom row.

use vstd::prelude::*;

verus! {

/// Upper bound on each board dimension, so that every coordinate fits
/// comfortably in an `i32` even after a piece offset is added.
pub const MAX_DIM: usize = 1000000;

/// One board cell: empty, or filled with the color identifier of the piece
/// that locked there.  A plain value with no identity.
#[derive(Clone, Copy, Debug, PartialEq, Eq, Structural)]
pub enum Cell {
    Empty,
    Filled(u8),
}

/// Mathematical model of a `Grid`: its dimensions and its rows of cells,
/// bottom row first.
#[verifier::ext_equal]
pub ghost struct GridModel {
    pub width: int,
    pub height: int,
    pub rows: Seq<Seq<Cell>>,
}

/// A well-formed board model: positive bounded dimensions, exactly `height`
/// rows, each exactly `width` cells wide.
pub open spec fn grid_wf(g: GridModel) -> bool {
    &&& 1 <= g.width <= MAX_DIM as int
    &&& 1 <= g.height <= MAX_DIM as int
    &&& g.rows.len() == g.height
    &&& forall|y: int| 0 <= y < g.height ==> (#[trigger] g.rows[y]).len() == g.width
}

/// Whether board position `(x, y)` blocks a piece: positions outside
/// `[0, width) x [0, height)` count as solid walls, positions inside block
/// exactly when their cell is `Filled`.
pub open spec fn occupied_spec(g: GridModel, x: int, y: int) -> bool {
    !(0 <= x < g.width && 0 <= y < g.height) || g.rows[y][x] is Filled
}

/// A row is full when every one of its first `w` cells is `Filled`.
pub open spec fn row_full(row: Seq<Cell>, w: int) -> bool {
    forall|x: int| 0 <= x < w ==> (#[trigger] row[x]) is Filled
}

/// A row of `w` empty cells.
pub open spec fn empty_row(w: int) -> Seq<Cell> {
    Seq::new(w as nat, |x: int| Cell::Empty)
}

/// The rows of `rows` that are not full, in bottom-to-top order.
pub open spec fn kept_rows(rows: Seq<Seq<Cell>>, w: int) -> Seq<Seq<Cell>>
    decreases rows.len(),
{
    if rows.len() == 0 {
        Seq::empty()
    } else if row_full(rows[0], w) {
        kept_rows(rows.drop_first(), w)
    } else {
        seq![rows[0]] + kept_rows(rows.drop_first(), w)
    }
}

/// How many rows of `rows` are full.
pub open spec fn full_count(rows: Seq<Seq<Cell>>, w: int) -> int
    decreases rows.len(),
{
    if rows.len() == 0 {
        0
    } else {
        (if row_full(rows[0], w) { 1int } else { 0int }) + full_count(rows.drop_first(), w)
    }
}

/// The board rows after clearing: the non-full rows compacted to the bottom,
/// topped up with empty rows, one per cleared row.
pub open spec fn cleared_rows(rows: Seq<Seq<Cell>>, w: int) -> Seq<Seq<Cell>> {
    kept_rows(rows, w) + Seq::new(full_count(rows, w) as nat, |i: int| empty_row(w))
}

/// Whether the coordinate `(x, y)` occurs in the cell list `cs`.
pub open spec fn cell_in_list(cs: Seq<(i32, i32)>, x: int, y: int) -> bool {
    exists|i: int| 0 <= i < cs.len() && (#[trigger] cs[i]).0 == x && cs[i].1 == y
}

/// The board rows after locking: every position named in `cs` becomes
/// `Filled(color)`, every other position keeps its old cell.
pub open spec fn rows_locked(rows: Seq<Seq<Cell>>, cs: Seq<(i32, i32)>, color: u8) -> Seq<
    Seq<Cell>,
> {
    Seq::new(
        rows.len(),
        |y: int|
            Seq::new(
                rows[y].len(),
                |x: int|
                    if cell_in_list(cs, x, y) {
                        Cell::Filled(color)
                    } else {
                        rows[y][x]
                    },
            ),
    )
}

/// Whether all four positions in `cs` are inside the board and empty, so that
/// a piece may lock there.
pub open spec fn can_lock(g: GridModel, cs: Seq<(i32, i32)>) -> bool {
    forall|i: int| 0 <= i < cs.len()
        ==> 0 <= (#[trigger] cs[i]).0 < g.width && 0 <= cs[i].1 < g.height
            && g.rows[cs[i].1 as int][cs[i].0 as int] is Empty
}

/// Appending a row at the top filters it into the compaction exactly when it
/// is not full, and raises the full count exactly when it is.
pub proof fn lemma_kept_rows_push(rows: Seq<Seq<Cell>>, r: Seq<Cell>, w: int)
    ensures
        kept_rows(rows.push(r), w) == if row_full(r, w) {
            kept_rows(rows, w)
        } else {
            kept_rows(rows, w).push(r)
        },
        full_count(rows.push(r), w) == full_count(rows, w) + if row_full(r, w) {
            1int
        } else {
            0int
        },
    decreases rows.len(),
{
    reveal_with_fuel(kept_rows, 3);
    reveal_with_fuel(full_count, 3);
    if rows.len() == 0 {
        assert(rows.push(r).drop_first() =~= Seq::<Seq<Cell>>::empty());
        assert(rows.push(r)[0] == r);
        if !row_full(r, w) {
            assert(kept_rows(rows.push(r), w) =~= kept_rows(rows, w).push(r));
        }
    } else {
        lemma_kept_rows_push(rows.drop_first(), r, w);
        assert(rows.push(r).drop_first() =~= rows.drop_first().push(r));
        assert(rows.push(r)[0] == rows[0]);
        if !row_full(rows[0], w) {
            if !row_full(r, w) {
                assert(seq![rows[0]] + kept_rows(rows.drop_first(), w).push(r) =~= (seq![rows[0]]
                    + kept_rows(rows.drop_first(), w)).push(r));
            }
        }
    }
}

/// Compaction keeps every row that is not full and drops every row that is:
/// the kept rows and the full rows together account for the whole board.
pub proof fn lemma_kept_rows_len(rows: Seq<Seq<Cell>>, w: int)
    ensures
        kept_rows(rows, w).len() + full_count(rows, w) == rows.len(),
        0 <= full_count(rows, w) <= rows.len(),
    decreases rows.len(),
{
    if rows.len() > 0 {
        lemma_kept_rows_len(rows.drop_first(), w);
    }
}

/// No row that survives compaction is full.
pub proof fn lemma_kept_rows_not_full(rows: Seq<Seq<Cell>>, w: int)
    ensures
        forall|i: int| 0 <= i < kept_rows(rows, w).len()
            ==> !row_full(#[trigger] kept_rows(rows, w)[i], w),
    decreases rows.len(),
{
    if rows.len() > 0 {
        lemma_kept_rows_not_full(rows.drop_first(), w);
        if !row_full(rows[0], w) {
            assert forall|i: int| 0 <= i < kept_rows(rows, w).len() implies !row_full(
                #[trigger] kept_rows(rows, w)[i],
                w,
            ) by {
                if i > 0 {
                    assert(kept_rows(rows, w)[i] == kept_rows(rows.drop_first(), w)[i - 1]);
                }
            }
        }
    }
}

/// Each row of the pre-clear board that is not full lands, after clearing,
/// exactly as many rows lower as there were full rows strictly below it.
pub proof fn lemma_kept_rows_shift(rows: Seq<Seq<Cell>>, w: int, y: int)
    requires
        0 <= y < rows.len(),
        !row_full(rows[y], w),
    ensures
        0 <= y - full_count(rows.take(y), w) < kept_rows(rows, w).len(),
        kept_rows(rows, w)[y - full_count(rows.take(y), w)] == rows[y],
    decreases rows.len(),
{
    lemma_kept_rows_len(rows.take(y), w);
    lemma_kept_rows_len(rows, w);
    if y == 0 {
        assert(rows.take(0) =~= Seq::<Seq<Cell>>::empty());
    } else {
        lemma_kept_rows_shift(rows.drop_first(), w, y - 1);
        assert(rows.take(y).drop_first() =~= rows.drop_first().take(y - 1));
        assert(rows.take(y)[0] == rows[0]);
        assert(rows.drop_first()[y - 1] == rows[y]);
        if !row_full(rows[0], w) {
            let k = full_count(rows.drop_first().take(y - 1), w);
            assert(kept_rows(rows, w) == seq![rows[0]] + kept_rows(rows.drop_first(), w));
            assert(kept_rows(rows, w)[1 + (y - 1 - k)] == kept_rows(rows.drop_first(), w)[y - 1
                - k]);
        }
    }
}

/// The public statement of what clearing does, over the pre-call snapshot:
/// every non-full row shifts down by the number of full rows strictly below
/// it, every surviving row is one of those non-full rows, and the rows above
/// the survivors are empty.
pub proof fn lemma_clear_full_rows_spec(rows: Seq<Seq<Cell>>, w: int)
    ensures
        cleared_rows(rows, w).len() == rows.len(),
        forall|y: int| 0 <= y < rows.len() && !row_full(#[trigger] rows[y], w) ==> {
            let y2 = y - full_count(rows.take(y), w);
            0 <= y2 <= y && cleared_rows(rows, w)[y2] == rows[y]
        },
        forall|i: int| 0 <= i < kept_rows(rows, w).len()
            ==> !row_full(#[trigger] cleared_rows(rows, w)[i], w),
        forall|i: int| kept_rows(rows, w).len() <= i < rows.len()
            ==> #[trigger] cleared_rows(rows, w)[i] == empty_row(w),
{
    lemma_kept_rows_len(rows, w);
    lemma_kept_rows_not_full(rows, w);
    assert forall|y: int| 0 <= y < rows.len() && !row_full(#[trigger] rows[y], w) implies {
        let y2 = y - full_count(rows.take(y), w);
        0 <= y2 <= y && cleared_rows(rows, w)[y2] == rows[y]
    } by {
        lemma_kept_rows_shift(rows, w, y);
        lemma_kept_rows_len(rows.take(y), w);
    }
}

/// The board of locked cells.  Its dimensions are fixed at construction; only
/// `lock_cells`, `set_cell` and `clear_full_rows` mutate it.
pub struct Grid {
    width: usize,
    height: usize,
    cells: Vec<Vec<Cell>>,
}

impl View for Grid {
    type V = GridModel;

    closed spec fn view(&self) -> GridModel {
        GridModel {
            width: self.width as int,
            height: self.height as int,
            rows: self.cells@.map_values(|r: Vec<Cell>| r@),
        }
    }
}

impl Grid {
    /// Well-formedness: the stored rows match the stored dimensions.
    pub open spec fn wf(&self) -> bool {
        grid_wf(self@)
    }

    /// The stored vectors line up with the model's rows.
    proof fn lemma_storage(&self, y: int)
        requires
            self.wf(),
            0 <= y < self@.height,
        ensures
            self.cells@.len() == self@.height,
            self.cells@[y]@ == self@.rows[y],
            self.cells@[y]@.len() == self@.width,
    {
    }

    /// A fresh board of the given dimensions with every cell empty.
    pub fn new(width: usize, height: usize) -> (g: Grid)
        requires
            1 <= width <= MAX_DIM,
            1 <= height <= MAX_DIM,
        ensures
            g.wf(),
            g@.width == width,
            g@.height == height,
            forall|y: int, x: int| 0 <= y < height && 0 <= x < width
                ==> #[trigger] g@.rows[y][x] == Cell::Empty,
    {
        let mut cells: Vec<Vec<Cell>> = Vec::new();
        let mut y: usize = 0;
        while y < height
            invariant
                y <= height,
                cells@.len() == y,
                forall|yy: int| 0 <= yy < y ==> (#[trigger] cells@[yy])@.len() == width,
                forall|yy: int, x: int| 0 <= yy < y && 0 <= x < width
                    ==> #[trigger] cells@[yy]@[x] == Cell::Empty,
            decreases height - y,
        {
            let mut row: Vec<Cell> = Vec::new();
            let mut x: usize = 0;
            while x < width
                invariant
                    x <= width,
                    row@.len() == x,
                    forall|xx: int| 0 <= xx < x ==> #[trigger] row@[xx] == Cell::Empty,
                decreases width - x,
            {
                row.push(Cell::Empty);
                x = x + 1;
            }
            cells.push(row);
            y = y + 1;
        }
        Grid { width, height, cells }
    }

    /// The board width.
    pub fn width(&self) -> (w: usize)
        ensures
            w as int == self@.width,
    {
        self.width
    }

    /// The board height.
    pub fn height(&self) -> (h: usize)
        ensures
            h as int == self@.height,
    {
        self.height
    }

    /// The cell at `(x, y)`.
    pub fn cell(&self, x: usize, y: usize) -> (c: Cell)
        requires
            self.wf(),
            x < self@.width,
            y < self@.height,
        ensures
            c == self@.rows[y as int][x as int],
    {
        proof {
            self.lemma_storage(y as int);
        }
        self.cells[y][x]
    }

    /// Whether `(x, y)` blocks a piece: true outside the board (the boundary
    /// acts as a solid wall) and on `Filled` cells inside it.
    pub fn is_occupied(&self, x: i32, y: i32) -> (b: bool)
        requires
            self.wf(),
        ensures
            b == occupied_spec(self@, x as int, y as int),
    {
        if x < 0 || y < 0 {
            return true;
        }
        let xu = x as usize;
        let yu = y as usize;
        if xu >= self.width || yu >= self.height {
            return true;
        }
        proof {
            self.lemma_storage(yu as int);
        }
        match self.cells[yu][xu] {
            Cell::Empty => false,
            Cell::Filled(_) => true,
        }
    }

    /// Overwrite the cell at `(x, y)`; dimensions and all other cells keep
    /// their values.
    pub fn set_cell(&mut self, x: usize, y: usize, c: Cell)
        requires
            old(self).wf(),
            x < old(self)@.width,
            y < old(self)@.height,
        ensures
            final(self).wf(),
            final(self)@.width == old(self)@.width,
            final(self)@.height == old(self)@.height,
            final(self)@.rows == old(self)@.rows.update(
                y as int,
                old(self)@.rows[y as int].update(x as int, c),
            ),
    {
        proof {
            old(self).lemma_storage(y as int);
        }
        self.cells[y][x] = c;
        proof {
            assert(self@.rows =~= old(self)@.rows.update(
                y as int,
                old(self)@.rows[y as int].update(x as int, c),
            ));
        }
    }

    /// Whether row `y` is completely filled.
    pub fn row_is_full(&self, y: usize) -> (b: bool)
        requires
            self.wf(),
            y < self@.height,
        ensures
            b == row_full(self@.rows[y as int], self@.width),
    {
        let mut x: usize = 0;
        while x < self.width
            invariant
                self.wf(),
                y < self@.height,
                x <= self@.width,
                forall|xx: int| 0 <= xx < x ==> (#[trigger] self@.rows[y as int][xx]) is Filled,
            decreases self@.width - x,
        {
            proof {
                self.lemma_storage(y as int);
            }
            match self.cells[y][x] {
                Cell::Empty => {
                    return false;
                },
                Cell::Filled(_) => {},
            }
            x = x + 1;
        }
        true
    }

    /// A copy of row `y`.
    pub fn copy_row(&self, y: usize) -> (r: Vec<Cell>)
        requires
            self.wf(),
            y < self@.height,
        ensures
            r@ == self@.rows[y as int],
    {
        let mut r: Vec<Cell> = Vec::new();
        let mut x: usize = 0;
        while x < self.width
            invariant
                self.wf(),
                y < self@.height,
                x <= self@.width,
                r@.len() == x,
                forall|xx: int| 0 <= xx < x ==> #[trigger] r@[xx] == self@.rows[y as int][xx],
            decreases self@.width - x,
        {
            proof {
                self.lemma_storage(y as int);
            }
            r.push(self.cells[y][x]);
            x = x + 1;
        }
        proof {
            assert(r@ =~= self@.rows[y as int]);
        }
        r
    }

    /// A fresh all-empty row of this board's width.
    fn fresh_row(&self) -> (r: Vec<Cell>)
        requires
            self.wf(),
        ensures
            r@ == empty_row(self@.width),
    {
        let mut r: Vec<Cell> = Vec::new();
        let mut x: usize = 0;
        while x < self.width
            invariant
                self.wf(),
                x <= self@.width,
                r@.len() == x,
                forall|xx: int| 0 <= xx < x ==> #[trigger] r@[xx] == Cell::Empty,
            decreases self@.width - x,
        {
            r.push(Cell::Empty);
            x = x + 1;
        }
        proof {
            assert(r@ =~= empty_row(self@.width));
        }
        r
    }

    /// Set each position in `cells` to `Filled(color)`, provided all four are
    /// inside the board and empty.  If any is not, nothing changes and `false`
    /// comes back: an illegal lock means the collision check was bypassed, a
    /// programming error the caller must surface, not a state to recover from.
    pub fn lock_cells(&mut self, cells: &Vec<(i32, i32)>, color: u8) -> (ok: bool)
        requires
            old(self).wf(),
            cells@.len() == 4,
        ensures
            final(self).wf(),
            final(self)@.width == old(self)@.width,
            final(self)@.height == old(self)@.height,
            ok == can_lock(old(self)@, cells@),
            ok ==> final(self)@.rows == rows_locked(old(self)@.rows, cells@, color),
            !ok ==> final(self)@ == old(self)@,
    {
        let ghost g0 = self@;
        let mut i: usize = 0;
        while i < 4
            invariant
                self.wf(),
                self@ == g0,
                cells@.len() == 4,
                i <= 4,
                forall|j: int| 0 <= j < i
                    ==> 0 <= (#[trigger] cells@[j]).0 < g0.width && 0 <= cells@[j].1 < g0.height
                        && g0.rows[cells@[j].1 as int][cells@[j].0 as int] is Empty,
            decreases 4 - i,
        {
            if self.is_occupied(cells[i].0, cells[i].1) {
                assert(!can_lock(g0, cells@));
                return false;
            }
            i = i + 1;
        }
        assert(can_lock(g0, cells@));
        let mut j: usize = 0;
        while j < 4
            invariant
                self.wf(),
                self@.width == g0.width,
                self@.height == g0.height,
                cells@.len() == 4,
                can_lock(g0, cells@),
                j <= 4,
                forall|yy: int, xx: int| 0 <= yy < g0.height && 0 <= xx < g0.width
                    ==> #[trigger] self@.rows[yy][xx] == (if cell_in_list(
                        cells@.take(j as int),
                        xx,
                        yy,
                    ) {
                        Cell::Filled(color)
                    } else {
                        g0.rows[yy][xx]
                    }),
            decreases 4 - j,
        {
            let (cx, cy) = cells[j];
            let ghost pre = self@;
            self.set_cell(cx as usize, cy as usize, Cell::Filled(color));
            proof {
                assert(cells@.take(j + 1) =~= cells@.take(j as int).push(cells@[j as int]));
                assert forall|yy: int, xx: int| 0 <= yy < g0.height && 0 <= xx < g0.width implies
                    #[trigger] self@.rows[yy][xx] == (if cell_in_list(cells@.take(j + 1), xx, yy) {
                        Cell::Filled(color)
                    } else {
                        g0.rows[yy][xx]
                    }) by {
                    if cell_in_list(cells@.take(j + 1), xx, yy) {
                        if xx == cx as int && yy == cy as int {
                        } else {
                            let w = choose|i: int| 0 <= i < cells@.take(j + 1).len()
                                && (#[trigger] cells@.take(j + 1)[i]).0 == xx
                                && cells@.take(j + 1)[i].1 == yy;
                            assert(w < j);
                            assert(cell_in_list(cells@.take(j as int), xx, yy));
                        }
                    } else {
                        assert(!(xx == cx as int && yy == cy as int)) by {
                            if xx == cx as int && yy == cy as int {
                                assert(cells@.take(j + 1)[j as int] == (cx, cy));
                            }
                        }
                        assert(!cell_in_list(cells@.take(j as int), xx, yy)) by {
                            if cell_in_list(cells@.take(j as int), xx, yy) {
                                let w = choose|i: int| 0 <= i < cells@.take(j as int).len()
                                    && (#[trigger] cells@.take(j as int)[i]).0 == xx
                                    && cells@.take(j as int)[i].1 == yy;
                                assert(cells@.take(j + 1)[w] == cells@.take(j as int)[w]);
                            }
                        }
                    }
                }
            }
            j = j + 1;
        }
        proof {
            assert(cells@.take(4) =~= cells@);
            assert(self@.rows =~~= rows_locked(g0.rows, cells@, color));
        }
        true
    }

    /// Remove every full row, computed from one snapshot and applied as one
    /// compaction pass: surviving rows shift down by the number of full rows
    /// below them and the vacated top rows become empty.  Returns how many
    /// rows were cleared.
    pub fn clear_full_rows(&mut self) -> (count: usize)
        requires
            old(self).wf(),
        ensures
            final(self).wf(),
            final(self)@.width == old(self)@.width,
            final(self)@.height == old(self)@.height,
            final(self)@.rows == cleared_rows(old(self)@.rows, old(self)@.width),
            count as int == full_count(old(self)@.rows, old(self)@.width),
    {
        let ghost g0 = self@;
        let height = self.height;
        let mut kept: Vec<Vec<Cell>> = Vec::new();
        let mut y: usize = 0;
        while y < height
            invariant
                self.wf(),
                self@ == g0,
                height as int == g0.height,
                y <= height,
                kept@.map_values(|r: Vec<Cell>| r@) == kept_rows(g0.rows.take(y as int), g0.width),
                forall|k: int| 0 <= k < kept@.len() ==> (#[trigger] kept@[k])@.len() == g0.width,
            decreases height - y,
        {
            let ghost pre = kept@.map_values(|r: Vec<Cell>| r@);
            if !self.row_is_full(y) {
                let row = self.copy_row(y);
                kept.push(row);
                proof {
                    assert(kept@.map_values(|r: Vec<Cell>| r@) =~= pre.push(g0.rows[y as int]));
                }
            }
            proof {
                assert(g0.rows.take(y + 1) =~= g0.rows.take(y as int).push(g0.rows[y as int]));
                lemma_kept_rows_push(g0.rows.take(y as int), g0.rows[y as int], g0.width);
            }
            y = y + 1;
        }
        proof {
            assert(g0.rows.take(g0.height) =~= g0.rows);
            lemma_kept_rows_len(g0.rows, g0.width);
        }
        let cleared = height - kept.len();
        let mut filled: usize = kept.len();
        while filled < height
            invariant
                self.wf(),
                self@ == g0,
                height as int == g0.height,
                filled <= height,
                kept@.len() == filled,
                kept@.map_values(|r: Vec<Cell>| r@) == kept_rows(g0.rows, g0.width) + Seq::new(
                    (filled - kept_rows(g0.rows, g0.width).len()) as nat,
                    |i: int| empty_row(g0.width),
                ),
                kept_rows(g0.rows, g0.width).len() <= filled,
                forall|k: int| 0 <= k < kept@.len() ==> (#[trigger] kept@[k])@.len() == g0.width,
            decreases height - filled,
        {
            let ghost pre = kept@.map_values(|r: Vec<Cell>| r@);
            let row = self.fresh_row();
            kept.push(row);
            proof {
                assert(kept@.map_values(|r: Vec<Cell>| r@) =~= pre.push(empty_row(g0.width)));
                assert(kept@.map_values(|r: Vec<Cell>| r@) =~= kept_rows(g0.rows, g0.width)
                    + Seq::new(
                    (filled + 1 - kept_rows(g0.rows, g0.width).len()) as nat,
                    |i: int| empty_row(g0.width),
                ));
            }
            filled = filled + 1;
        }
        self.cells = kept;
        proof {
            assert(self@.rows =~= cleared_rows(g0.rows, g0.width));
        }
        cleared
    }
}

} // verus!
