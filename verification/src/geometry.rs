//! Playfield layout: screen size, neutral zone, and where the shield cells sit.
use vstd::prelude::*;

verus! {

pub const SCREEN_W: i32 = 800;
pub const SCREEN_H: i32 = 600;

pub const NEUTRAL_ZONE_X: i32 = 250;
pub const NEUTRAL_ZONE_W: i32 = 150;

pub const SHIELD_X: i32 = 720;
pub const SHIELD_COLS: usize = 2;
pub const SHIELD_ROWS: usize = 12;
/// Number of cells in the shield.
pub const SHIELD_CELLS: usize = 24;
pub const CELL_W: i32 = 16;

pub const YAR_SIZE: i32 = 32;
pub const YAR_SPEED: i32 = 4;
/// Distance Yar is pushed back when it bumps into an intact shield cell.
pub const BOUNCE: i32 = 28;

pub const QOTILE_X: i32 = 770;
/// Height of the Qotile's middle.
pub const QOTILE_Y: i32 = 300;
/// Radius of the Qotile's disc.
pub const QOTILE_RADIUS: i32 = 14;

pub const MISSILE_SPEED: i32 = 8;
pub const CANNON_SPEED: i32 = 10;

/// Vertical positions of shield rows are kept in units of 1/SUBPIXELS of a
/// pixel, fine enough to hold exactly the edges of the single-precision layout.
pub const SUBPIXELS: i64 = 262144;

/// Top edge of shield row `row`, in subpixels: the single-precision value of
/// `40 + row * (520 / 12)`.
pub open spec fn row_top(row: int) -> int {
    if row == 0 { 10485760 }
    else if row == 1 { 21845332 }
    else if row == 2 { 33204906 }
    else if row == 3 { 44564480 }
    else if row == 4 { 55924052 }
    else if row == 5 { 67283624 }
    else if row == 6 { 78643200 }
    else if row == 7 { 90002768 }
    else if row == 8 { 101362344 }
    else if row == 9 { 112721920 }
    else if row == 10 { 124081488 }
    else { 135441056 }
}

/// Bottom edge of shield row `row`, in subpixels: the single-precision value
/// of its top edge plus `520 / 12`.
pub open spec fn row_bottom(row: int) -> int {
    if row == 0 { 21845332 }
    else if row == 1 { 33204904 }
    else if row == 2 { 44564480 }
    else if row == 3 { 55924052 }
    else if row == 4 { 67283624 }
    else if row == 5 { 78643200 }
    else if row == 6 { 90002776 }
    else if row == 7 { 101362344 }
    else if row == 8 { 112721920 }
    else if row == 9 { 124081496 }
    else if row == 10 { 135441056 }
    else { 146800624 }
}

/// Left edge of shield column `col`, in pixels.
pub open spec fn col_left(col: int) -> int {
    SHIELD_X + CELL_W * col
}

/// Row of the cell with flat index `k` (cells are numbered row by row).
pub open spec fn cell_row(k: int) -> int {
    k / 2
}

/// Column of the cell with flat index `k`.
pub open spec fn cell_col(k: int) -> int {
    k % 2
}

/// The point `(x, y)` lies in cell `k`, edges included.
pub open spec fn point_in_cell(x: int, y: int, k: int) -> bool {
    &&& col_left(cell_col(k)) <= x <= col_left(cell_col(k)) + CELL_W
    &&& row_top(cell_row(k)) <= y * SUBPIXELS <= row_bottom(cell_row(k))
}

/// The rectangle at `(x, y)` of size `w` by `h` overlaps cell `k` (touching
/// edges do not count).
pub open spec fn rect_touches_cell(x: int, y: int, w: int, h: int, k: int) -> bool {
    &&& x < col_left(cell_col(k)) + CELL_W
    &&& x + w > col_left(cell_col(k))
    &&& y * SUBPIXELS < row_bottom(cell_row(k))
    &&& (y + h) * SUBPIXELS > row_top(cell_row(k))
}

/// The side of a cell that a touching rectangle came in through.
#[derive(Clone, Copy, Debug, PartialEq, Eq, Structural)]
pub enum Side {
    Left,
    Right,
    Top,
    Bottom,
}

pub open spec fn min_int(a: int, b: int) -> int {
    if a <= b { a } else { b }
}

/// The side of cell `k` with the shallowest overlap: how far the rectangle
/// reaches past the left, right, top and bottom edge, the smallest wins, ties
/// going to left, then right, then top.
pub open spec fn contact_side(x: int, y: int, w: int, h: int, k: int) -> Side {
    let cx = col_left(cell_col(k));
    let from_left = (x + w - cx) * SUBPIXELS;
    let from_right = (cx + CELL_W - x) * SUBPIXELS;
    let from_top = (y + h) * SUBPIXELS - row_top(cell_row(k));
    let from_bottom = row_bottom(cell_row(k)) - y * SUBPIXELS;
    let m = min_int(min_int(min_int(from_left, from_right), from_top), from_bottom);
    if m == from_left {
        Side::Left
    } else if m == from_right {
        Side::Right
    } else if m == from_top {
        Side::Top
    } else {
        Side::Bottom
    }
}

/// How far Yar is pushed when it hits a cell through `side`.
pub open spec fn bounce_of(side: Side) -> (int, int) {
    match side {
        Side::Left => (-BOUNCE as int, 0),
        Side::Right => (BOUNCE as int, 0),
        Side::Top => (0, -BOUNCE as int),
        Side::Bottom => (0, BOUNCE as int),
    }
}

/// Top edge of a shield row, in subpixels.
pub fn row_top_at(row: usize) -> (t: i64)
    requires
        row < SHIELD_ROWS,
    ensures
        t == row_top(row as int),
{
    if row == 0 { 10485760 }
    else if row == 1 { 21845332 }
    else if row == 2 { 33204906 }
    else if row == 3 { 44564480 }
    else if row == 4 { 55924052 }
    else if row == 5 { 67283624 }
    else if row == 6 { 78643200 }
    else if row == 7 { 90002768 }
    else if row == 8 { 101362344 }
    else if row == 9 { 112721920 }
    else if row == 10 { 124081488 }
    else { 135441056 }
}

/// Bottom edge of a shield row, in subpixels.
pub fn row_bottom_at(row: usize) -> (b: i64)
    requires
        row < SHIELD_ROWS,
    ensures
        b == row_bottom(row as int),
{
    if row == 0 { 21845332 }
    else if row == 1 { 33204904 }
    else if row == 2 { 44564480 }
    else if row == 3 { 55924052 }
    else if row == 4 { 67283624 }
    else if row == 5 { 78643200 }
    else if row == 6 { 90002776 }
    else if row == 7 { 101362344 }
    else if row == 8 { 112721920 }
    else if row == 9 { 124081496 }
    else if row == 10 { 135441056 }
    else { 146800624 }
}

/// Whether the point `(x, y)` lies in the cell at `row`, `col`.
pub fn point_in_cell_at(x: i32, y: i32, row: usize, col: usize) -> (r: bool)
    requires
        row < SHIELD_ROWS,
        col < SHIELD_COLS,
    ensures
        r == point_in_cell(x as int, y as int, (2 * row + col) as int),
{
    let cx: i64 = SHIELD_X as i64 + CELL_W as i64 * col as i64;
    let top: i64 = row_top_at(row);
    let bottom: i64 = row_bottom_at(row);
    let ys: i64 = y as i64 * SUBPIXELS;
    proof {
        assert(cell_row((2 * row + col) as int) == row as int);
        assert(cell_col((2 * row + col) as int) == col as int);
    }
    x as i64 >= cx && x as i64 <= cx + CELL_W as i64 && ys >= top && ys <= bottom
}

/// Whether the rectangle at `(x, y)` of size `w` by `h` overlaps the cell at
/// `row`, `col`.
pub fn rect_touches_cell_at(x: i32, y: i32, w: i32, h: i32, row: usize, col: usize) -> (r: bool)
    requires
        row < SHIELD_ROWS,
        col < SHIELD_COLS,
    ensures
        r == rect_touches_cell(x as int, y as int, w as int, h as int, (2 * row + col) as int),
{
    let cx: i64 = SHIELD_X as i64 + CELL_W as i64 * col as i64;
    let top: i64 = row_top_at(row);
    let bottom: i64 = row_bottom_at(row);
    proof {
        assert(cell_row((2 * row + col) as int) == row as int);
        assert(cell_col((2 * row + col) as int) == col as int);
    }
    (x as i64) < cx + CELL_W as i64 && x as i64 + w as i64 > cx
        && (y as i64) * SUBPIXELS < bottom && (y as i64 + h as i64) * SUBPIXELS > top
}

/// The side through which the rectangle came into the cell at `row`, `col`.
pub fn contact_side_at(x: i32, y: i32, w: i32, h: i32, row: usize, col: usize) -> (s: Side)
    requires
        row < SHIELD_ROWS,
        col < SHIELD_COLS,
    ensures
        s == contact_side(x as int, y as int, w as int, h as int, (2 * row + col) as int),
{
    let cx: i64 = SHIELD_X as i64 + CELL_W as i64 * col as i64;
    let top: i64 = row_top_at(row);
    let bottom: i64 = row_bottom_at(row);
    proof {
        assert(cell_row((2 * row + col) as int) == row as int);
        assert(cell_col((2 * row + col) as int) == col as int);
    }
    let from_left: i64 = (x as i64 + w as i64 - cx) * SUBPIXELS;
    let from_right: i64 = (cx + CELL_W as i64 - x as i64) * SUBPIXELS;
    let from_top: i64 = (y as i64 + h as i64) * SUBPIXELS - top;
    let from_bottom: i64 = bottom - (y as i64) * SUBPIXELS;
    let mut m: i64 = from_left;
    if from_right < m {
        m = from_right;
    }
    if from_top < m {
        m = from_top;
    }
    if from_bottom < m {
        m = from_bottom;
    }
    if m == from_left {
        Side::Left
    } else if m == from_right {
        Side::Right
    } else if m == from_top {
        Side::Top
    } else {
        Side::Bottom
    }
}

/// The push Yar gets from hitting a cell through `side`, as `(dx, dy)`.
pub fn bounce(side: Side) -> (d: (i32, i32))
    ensures
        (d.0 as int, d.1 as int) == bounce_of(side),
{
    match side {
        Side::Left => (-BOUNCE, 0),
        Side::Right => (BOUNCE, 0),
        Side::Top => (0, -BOUNCE),
        Side::Bottom => (0, BOUNCE),
    }
}

} // verus!
