//! The Qotile's shield: a grid of cells that are intact, damaged or gone.
use vstd::prelude::*;
use crate::geometry::{
    SHIELD_CELLS, SHIELD_ROWS, SHIELD_COLS, SHIELD_X, CELL_W, SUBPIXELS, row_top, row_bottom, cell_col, rect_touches_cell, point_in_cell, contact_side, bounce_of,
    rect_touches_cell_at, point_in_cell_at, contact_side_at, bounce,
};

verus! {

/// A cell that is still intact.
pub const INTACT: u8 = 2;

/// What a contact between Yar and the shield did.
#[derive(Clone, Copy, Debug, PartialEq, Eq, Structural)]
pub enum NibbleResult {
    /// No live cell was touched.
    Miss,
    /// An intact cell was damaged; Yar is pushed by `(dx, dy)`.
    Hit(i32, i32),
    /// A damaged cell was eaten away.
    Consumed,
}

/// The shield's cells, row by row: cell `2 * row + col` holds 2 when intact,
/// 1 when damaged and 0 when gone.
pub struct Shield {
    cells: Vec<u8>,
}

impl View for Shield {
    type V = Seq<u8>;

    closed spec fn view(&self) -> Seq<u8> {
        self.cells@
    }
}

/// The cells of a shield: 24 of them, none above intact.
pub open spec fn cells_wf(cells: Seq<u8>) -> bool {
    &&& cells.len() == SHIELD_CELLS
    &&& forall|k: int| 0 <= k < SHIELD_CELLS ==> #[trigger] cells[k] <= INTACT
}

/// Every cell of `after` is worn at least as far as in `before`.
pub open spec fn worn_down(before: Seq<u8>, after: Seq<u8>) -> bool {
    &&& after.len() == before.len()
    &&& forall|k: int| 0 <= k < before.len() ==> #[trigger] after[k] <= before[k]
}

/// Cell `k` is live and overlapped by the rectangle.
pub open spec fn live_contact(cells: Seq<u8>, x: int, y: int, w: int, h: int, k: int) -> bool {
    cells[k] > 0 && rect_touches_cell(x, y, w, h, k)
}

/// The first cell at or after `from`, row by row, that the rectangle
/// overlaps while it is live; `SHIELD_CELLS` when there is none.
pub open spec fn first_contact_from(cells: Seq<u8>, x: int, y: int, w: int, h: int, from: int) -> int
    decreases SHIELD_CELLS - from,
{
    if from >= SHIELD_CELLS {
        SHIELD_CELLS as int
    } else if live_contact(cells, x, y, w, h, from) {
        from
    } else {
        first_contact_from(cells, x, y, w, h, from + 1)
    }
}

/// The first live cell, row by row, that the rectangle overlaps;
/// `SHIELD_CELLS` when there is none.
pub open spec fn first_contact(cells: Seq<u8>, x: int, y: int, w: int, h: int) -> int {
    first_contact_from(cells, x, y, w, h, 0)
}

/// What a contact of the rectangle with the shield gives, and the cells after
/// it: the first live cell it overlaps loses one level; a damaged one is
/// consumed, an intact one pushes Yar back out through the side it came in.
pub open spec fn contact_outcome(cells: Seq<u8>, x: int, y: int, w: int, h: int) -> (NibbleResult, Seq<u8>) {
    let k = first_contact(cells, x, y, w, h);
    if k >= SHIELD_CELLS {
        (NibbleResult::Miss, cells)
    } else {
        let left = (cells[k] - 1) as u8;
        let after = cells.update(k, left);
        if left == 0 {
            (NibbleResult::Consumed, after)
        } else {
            let d = bounce_of(contact_side(x, y, w, h, k));
            (NibbleResult::Hit(d.0 as i32, d.1 as i32), after)
        }
    }
}

/// Cell `k` is live and holds the point.
pub open spec fn live_point(cells: Seq<u8>, x: int, y: int, k: int) -> bool {
    cells[k] > 0 && point_in_cell(x, y, k)
}

/// The first cell at or after `from`, row by row, that is live and holds the
/// point; `SHIELD_CELLS` when there is none.
pub open spec fn first_point_from(cells: Seq<u8>, x: int, y: int, from: int) -> int
    decreases SHIELD_CELLS - from,
{
    if from >= SHIELD_CELLS {
        SHIELD_CELLS as int
    } else if live_point(cells, x, y, from) {
        from
    } else {
        first_point_from(cells, x, y, from + 1)
    }
}

/// The first live cell, row by row, holding the point; `SHIELD_CELLS` when
/// there is none.
pub open spec fn first_point(cells: Seq<u8>, x: int, y: int) -> int {
    first_point_from(cells, x, y, 0)
}

/// What a projectile at the point does to the shield: the first live cell
/// holding it is destroyed outright, and the projectile is stopped.
pub open spec fn point_outcome(cells: Seq<u8>, x: int, y: int) -> (bool, Seq<u8>) {
    let k = first_point(cells, x, y);
    if k >= SHIELD_CELLS {
        (false, cells)
    } else {
        (true, cells.update(k, 0u8))
    }
}

/// No cell of column `col` is left.
pub open spec fn column_clear(cells: Seq<u8>, col: int) -> bool {
    forall|row: int| 0 <= row < SHIELD_ROWS ==> #[trigger] cells[2 * row + col] == 0
}

/// The first hit, searched from `from`, is either past the end or a live
/// contact with none before it.
pub proof fn lemma_first_contact(cells: Seq<u8>, x: int, y: int, w: int, h: int, from: int)
    requires
        0 <= from <= SHIELD_CELLS,
    ensures
        from <= first_contact_from(cells, x, y, w, h, from) <= SHIELD_CELLS,
        first_contact_from(cells, x, y, w, h, from) < SHIELD_CELLS ==> live_contact(
            cells,
            x,
            y,
            w,
            h,
            first_contact_from(cells, x, y, w, h, from),
        ),
        forall|j: int|
            from <= j < first_contact_from(cells, x, y, w, h, from) ==> !#[trigger] live_contact(
                cells,
                x,
                y,
                w,
                h,
                j,
            ),
    decreases SHIELD_CELLS - from,
{
    if from < SHIELD_CELLS && !live_contact(cells, x, y, w, h, from) {
        lemma_first_contact(cells, x, y, w, h, from + 1);
    }
}

/// The first point hit, searched from `from`, is either past the end or a
/// live cell holding the point with none before it.
pub proof fn lemma_first_point(cells: Seq<u8>, x: int, y: int, from: int)
    requires
        0 <= from <= SHIELD_CELLS,
    ensures
        from <= first_point_from(cells, x, y, from) <= SHIELD_CELLS,
        first_point_from(cells, x, y, from) < SHIELD_CELLS ==> live_point(
            cells,
            x,
            y,
            first_point_from(cells, x, y, from),
        ),
        forall|j: int| from <= j < first_point_from(cells, x, y, from) ==> !#[trigger] live_point(cells, x, y, j),
    decreases SHIELD_CELLS - from,
{
    if from < SHIELD_CELLS && !live_point(cells, x, y, from) {
        lemma_first_point(cells, x, y, from + 1);
    }
}

/// Two shields whose cells are live in the same places meet a rectangle at
/// the same first cell.
pub proof fn lemma_contact_same_liveness(a: Seq<u8>, b: Seq<u8>, x: int, y: int, w: int, h: int, from: int)
    requires
        a.len() == b.len(),
        forall|j: int| 0 <= j < a.len() ==> (#[trigger] a[j] > 0) == (b[j] > 0),
        a.len() == SHIELD_CELLS,
        0 <= from,
    ensures
        first_contact_from(a, x, y, w, h, from) == first_contact_from(b, x, y, w, h, from),
    decreases SHIELD_CELLS - from,
{
    if from < SHIELD_CELLS {
        assert((a[from] > 0) == (b[from] > 0));
        lemma_contact_same_liveness(a, b, x, y, w, h, from + 1);
    }
}

/// First hit bounces, second hit eats: bumping into an intact cell damages
/// it and pushes Yar back, and bumping again at the same place eats that very
/// cell away.
pub proof fn law_two_bumps_eat_a_cell(cells: Seq<u8>, x: int, y: int, w: int, h: int)
    requires
        cells_wf(cells),
        first_contact(cells, x, y, w, h) < SHIELD_CELLS,
        cells[first_contact(cells, x, y, w, h)] == INTACT,
    ensures
        contact_outcome(cells, x, y, w, h).0 is Hit,
        first_contact(contact_outcome(cells, x, y, w, h).1, x, y, w, h) == first_contact(cells, x, y, w, h),
        contact_outcome(contact_outcome(cells, x, y, w, h).1, x, y, w, h).0 is Consumed,
        contact_outcome(contact_outcome(cells, x, y, w, h).1, x, y, w, h).1 == cells.update(
            first_contact(cells, x, y, w, h),
            0u8,
        ),
{
    let k = first_contact(cells, x, y, w, h);
    let once = contact_outcome(cells, x, y, w, h).1;
    lemma_first_contact(cells, x, y, w, h, 0);
    assert(once == cells.update(k, 1u8));
    assert forall|j: int| 0 <= j < once.len() implies (#[trigger] once[j] > 0) == (cells[j] > 0) by {
        if j != k {
            assert(once[j] == cells[j]);
        }
    }
    lemma_contact_same_liveness(once, cells, x, y, w, h, 0);
    assert(once.update(k, 0u8) =~= cells.update(k, 0u8));
}

/// A point left of the shield meets no cell.
pub proof fn lemma_left_of_shield(cells: Seq<u8>, x: int, y: int)
    requires
        x < SHIELD_X,
    ensures
        first_point(cells, x, y) >= SHIELD_CELLS,
{
    lemma_first_point(cells, x, y, 0);
    let k = first_point(cells, x, y);
    if k < SHIELD_CELLS {
        assert(point_in_cell(x, y, k));
        assert(cell_col(k) >= 0);
    }
}

/// A column is clear exactly when every one of its cells is gone: a single
/// damaged or intact cell left in it keeps it from being clear.
pub proof fn law_column_clear_means_every_cell_gone(cells: Seq<u8>, col: int)
    ensures
        column_clear(cells, col) <==> forall|row: int| 0 <= row < SHIELD_ROWS ==> #[trigger] cells[2 * row + col] == 0,
        forall|row: int| 0 <= row < SHIELD_ROWS && #[trigger] cells[2 * row + col] >= 1 ==> !column_clear(cells, col),
{
    assert forall|row: int| 0 <= row < SHIELD_ROWS && #[trigger] cells[2 * row + col] >= 1 implies !column_clear(
        cells,
        col,
    ) by {
        assert(cells[2 * row + col] != 0);
    }
}

/// What a bump does to the shield, over cell levels: with no live cell
/// overlapped nothing happens; otherwise exactly the first overlapped live
/// cell, row by row, loses one level: an intact one is damaged and pushes
/// Yar back, a damaged one is eaten.
pub proof fn law_contact_levels(cells: Seq<u8>, x: int, y: int, w: int, h: int)
    requires
        cells_wf(cells),
    ensures
        ({
            let (r, after) = contact_outcome(cells, x, y, w, h);
            &&& (r is Miss) <==> forall|k: int|
                0 <= k < SHIELD_CELLS ==> !(cells[k] > 0 && #[trigger] rect_touches_cell(x, y, w, h, k))
            &&& (r is Miss) ==> after == cells
            &&& !(r is Miss) ==> exists|k: int|
                #![trigger cells[k]]
                0 <= k < SHIELD_CELLS && cells[k] > 0 && rect_touches_cell(x, y, w, h, k) && (forall|j: int|
                    0 <= j < k ==> !(cells[j] > 0 && #[trigger] rect_touches_cell(x, y, w, h, j)))
                    && after == cells.update(k, (cells[k] - 1) as u8) && ((r is Consumed) <==> cells[k] == 1)
                    && ((r is Hit) <==> cells[k] == 2)
        }),
{
    lemma_first_contact(cells, x, y, w, h, 0);
    let k = first_contact(cells, x, y, w, h);
    if k < SHIELD_CELLS {
        assert(cells[k] <= 2);
        assert(live_contact(cells, x, y, w, h, k));
        assert forall|j: int| 0 <= j < k implies !(cells[j] > 0 && #[trigger] rect_touches_cell(x, y, w, h, j)) by {
            assert(!live_contact(cells, x, y, w, h, j));
        }
        assert(cells[k] > 0 && rect_touches_cell(x, y, w, h, k));
    } else {
        assert forall|j: int| 0 <= j < SHIELD_CELLS implies !(cells[j] > 0 && #[trigger] rect_touches_cell(
            x,
            y,
            w,
            h,
            j,
        )) by {
            assert(!live_contact(cells, x, y, w, h, j));
        }
    }
}

/// The push from an intact cell goes out through the side of shallowest
/// overlap: the overlap past that side is no deeper than past any other
/// (with ties going left, then right, then top), and the push is 28 px.
pub proof fn law_push_through_shallowest_side(cells: Seq<u8>, x: int, y: int, w: int, h: int)
    requires
        cells_wf(cells),
        contact_outcome(cells, x, y, w, h).0 is Hit,
    ensures
        ({
            let k = first_contact(cells, x, y, w, h);
            let cx = SHIELD_X + CELL_W * (k % 2);
            let left = (x + w - cx) * SUBPIXELS;
            let right = (cx + CELL_W - x) * SUBPIXELS;
            let top = (y + h) * SUBPIXELS - row_top(k / 2);
            let bottom = row_bottom(k / 2) - y * SUBPIXELS;
            let r = contact_outcome(cells, x, y, w, h).0;
            ||| r == NibbleResult::Hit(-28i32, 0i32) && left <= right && left <= top && left <= bottom
            ||| r == NibbleResult::Hit(28i32, 0i32) && right < left && right <= top && right <= bottom
            ||| r == NibbleResult::Hit(0i32, -28i32) && top < left && top < right && top <= bottom
            ||| r == NibbleResult::Hit(0i32, 28i32) && bottom < left && bottom < right && bottom < top
        }),
{
}

/// What a projectile does to the shield, over cell levels: with no live cell
/// holding the point nothing happens; otherwise exactly the first live cell
/// holding it, row by row, is destroyed.
pub proof fn law_point_levels(cells: Seq<u8>, x: int, y: int)
    ensures
        ({
            let (hit, after) = point_outcome(cells, x, y);
            &&& !hit <==> forall|k: int| 0 <= k < SHIELD_CELLS ==> !(cells[k] > 0 && #[trigger] point_in_cell(x, y, k))
            &&& !hit ==> after == cells
            &&& hit ==> exists|k: int|
                #![trigger cells[k]]
                0 <= k < SHIELD_CELLS && cells[k] > 0 && point_in_cell(x, y, k) && (forall|j: int|
                    0 <= j < k ==> !(cells[j] > 0 && #[trigger] point_in_cell(x, y, j))) && after == cells.update(
                    k,
                    0u8,
                )
        }),
{
    lemma_first_point(cells, x, y, 0);
    let k = first_point(cells, x, y);
    if k < SHIELD_CELLS {
        assert(live_point(cells, x, y, k));
        assert forall|j: int| 0 <= j < k implies !(cells[j] > 0 && #[trigger] point_in_cell(x, y, j)) by {
            assert(!live_point(cells, x, y, j));
        }
        assert(cells[k] > 0 && point_in_cell(x, y, k));
    } else {
        assert forall|j: int| 0 <= j < SHIELD_CELLS implies !(cells[j] > 0 && #[trigger] point_in_cell(x, y, j)) by {
            assert(!live_point(cells, x, y, j));
        }
    }
}

impl Shield {
    /// The shield is well formed.
    pub open spec fn wf(&self) -> bool {
        cells_wf(self@)
    }

    /// A shield with every cell intact.
    pub fn new() -> (s: Self)
        ensures
            s.wf(),
            s@ == Seq::new(SHIELD_CELLS as nat, |k: int| INTACT),
    {
        let mut cells: Vec<u8> = Vec::new();
        let mut k: usize = 0;
        while k < SHIELD_CELLS
            invariant
                k <= SHIELD_CELLS,
                cells@ == Seq::new(k as nat, |i: int| INTACT),
            decreases SHIELD_CELLS - k,
        {
            cells.push(INTACT);
            k += 1;
        }
        let s = Shield { cells };
        assert(s@ =~= Seq::new(SHIELD_CELLS as nat, |k: int| INTACT));
        s
    }

    /// The level of the cell at `row`, `col`: 2 intact, 1 damaged, 0 gone.
    pub fn cell(&self, row: usize, col: usize) -> (c: u8)
        requires
            self.wf(),
            row < SHIELD_ROWS,
            col < SHIELD_COLS,
        ensures
            c == self@[2 * row + col],
    {
        self.cells[2 * row + col]
    }

    /// Yar's body, the rectangle at `(yar_x, yar_y)` of size `yar_w` by
    /// `yar_h`, bumps into the shield: the first live cell it overlaps, row
    /// by row, loses a level.
    pub fn nibble_contact(&mut self, yar_x: i32, yar_y: i32, yar_w: i32, yar_h: i32) -> (r: NibbleResult)
        requires
            old(self).wf(),
        ensures
            final(self).wf(),
            (r, final(self)@) == contact_outcome(
                old(self)@,
                yar_x as int,
                yar_y as int,
                yar_w as int,
                yar_h as int,
            ),
    {
        let mut row: usize = 0;
        while row < SHIELD_ROWS
            invariant
                row <= SHIELD_ROWS,
                self@ == old(self)@,
                cells_wf(self@),
                first_contact(self@, yar_x as int, yar_y as int, yar_w as int, yar_h as int) == first_contact_from(
                    self@,
                    yar_x as int,
                    yar_y as int,
                    yar_w as int,
                    yar_h as int,
                    2 * row,
                ),
            decreases SHIELD_ROWS - row,
        {
            let mut col: usize = 0;
            while col < SHIELD_COLS
                invariant
                    row < SHIELD_ROWS,
                    col <= SHIELD_COLS,
                    self@ == old(self)@,
                    cells_wf(self@),
                    first_contact(self@, yar_x as int, yar_y as int, yar_w as int, yar_h as int)
                        == first_contact_from(
                        self@,
                        yar_x as int,
                        yar_y as int,
                        yar_w as int,
                        yar_h as int,
                        2 * row + col,
                    ),
                decreases SHIELD_COLS - col,
            {
                let k: usize = 2 * row + col;
                if self.cells[k] > 0 && rect_touches_cell_at(yar_x, yar_y, yar_w, yar_h, row, col) {
                    let side = contact_side_at(yar_x, yar_y, yar_w, yar_h, row, col);
                    let left: u8 = self.cells[k] - 1;
                    self.cells.set(k, left);
                    if left == 0 {
                        return NibbleResult::Consumed;
                    } else {
                        let d = bounce(side);
                        return NibbleResult::Hit(d.0, d.1);
                    }
                }
                col += 1;
            }
            row += 1;
        }
        NibbleResult::Miss
    }

    /// A projectile at `(x, y)` meets the shield: the first live cell, row by
    /// row, that holds the point is destroyed outright. Returns whether one was.
    pub fn nibble_missile(&mut self, x: i32, y: i32) -> (hit: bool)
        requires
            old(self).wf(),
        ensures
            final(self).wf(),
            (hit, final(self)@) == point_outcome(old(self)@, x as int, y as int),
    {
        let mut row: usize = 0;
        while row < SHIELD_ROWS
            invariant
                row <= SHIELD_ROWS,
                self@ == old(self)@,
                cells_wf(self@),
                first_point(self@, x as int, y as int) == first_point_from(self@, x as int, y as int, 2 * row),
            decreases SHIELD_ROWS - row,
        {
            let mut col: usize = 0;
            while col < SHIELD_COLS
                invariant
                    row < SHIELD_ROWS,
                    col <= SHIELD_COLS,
                    self@ == old(self)@,
                    cells_wf(self@),
                    first_point(self@, x as int, y as int) == first_point_from(
                        self@,
                        x as int,
                        y as int,
                        2 * row + col,
                    ),
                decreases SHIELD_COLS - col,
            {
                let k: usize = 2 * row + col;
                if self.cells[k] > 0 && point_in_cell_at(x, y, row, col) {
                    self.cells.set(k, 0);
                    return true;
                }
                col += 1;
            }
            row += 1;
        }
        false
    }

    /// Whether every cell of column `col` is gone.
    pub fn is_column_clear(&self, col: usize) -> (clear: bool)
        requires
            self.wf(),
            col < SHIELD_COLS,
        ensures
            clear == column_clear(self@, col as int),
            clear ==> forall|row: int| 0 <= row < SHIELD_ROWS ==> #[trigger] self@[2 * row + col] == 0,
            !clear ==> exists|row: int| 0 <= row < SHIELD_ROWS && #[trigger] self@[2 * row + col] > 0,
    {
        let mut row: usize = 0;
        while row < SHIELD_ROWS
            invariant
                row <= SHIELD_ROWS,
                col < SHIELD_COLS,
                cells_wf(self@),
                forall|r: int| 0 <= r < row ==> #[trigger] self@[2 * r + col] == 0,
            decreases SHIELD_ROWS - row,
        {
            if self.cells[2 * row + col] > 0 {
                return false;
            }
            row += 1;
        }
        true
    }
}

} // verus!
