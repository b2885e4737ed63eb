//! The Zorlon Cannon: charged by eating shield cells, fired across the screen,
//! stopped by the first thing it meets.
use vstd::prelude::*;
use crate::geometry::{
    CANNON_SPEED, QOTILE_X, QOTILE_Y, QOTILE_RADIUS, SCREEN_W, SHIELD_CELLS, SHIELD_X, CELL_W, SUBPIXELS,
    row_top, row_bottom, cell_row, cell_col, col_left, point_in_cell,
};
use crate::shield::{Shield, point_outcome, first_point, live_point, lemma_first_point};

verus! {

/// Where the cannon's shot starts, at the left edge of the screen.
pub const SHOT_START_X: i32 = 4;

/// Where a shot at the Qotile's height meets it.
pub const QOTILE_FRONT: i32 = QOTILE_X - 10;

/// The cannon: its shot, whether the shot is in flight, and whether the
/// cannon is charged.
#[derive(Clone, Copy, Debug, PartialEq, Eq, Structural)]
pub struct ZorlonCannon {
    pub shot_x: i32,
    pub shot_y: i32,
    pub firing: bool,
    pub charged: bool,
}

/// A shot at height `y` meets the Qotile: the height lies within the
/// Qotile's disc.
pub open spec fn at_qotile_height(y: int) -> bool {
    QOTILE_Y - QOTILE_RADIUS <= y <= QOTILE_Y + QOTILE_RADIUS
}

/// The cannon after being charged.
pub open spec fn cannon_charged(z: ZorlonCannon) -> ZorlonCannon {
    ZorlonCannon { shot_x: z.shot_x, shot_y: z.shot_y, firing: z.firing, charged: true }
}

/// The cannon after a shot at height `y`: it fires only when charged and no
/// shot is in flight, and firing uses up the charge.
pub open spec fn cannon_fired(z: ZorlonCannon, y: i32) -> ZorlonCannon {
    if z.charged && !z.firing {
        ZorlonCannon { shot_x: SHOT_START_X, shot_y: y, firing: true, charged: false }
    } else {
        z
    }
}

/// The cannon with its shot ended at `x`.
pub open spec fn shot_ended(z: ZorlonCannon, x: i32) -> ZorlonCannon {
    ZorlonCannon { shot_x: x, shot_y: z.shot_y, firing: false, charged: z.charged }
}

/// One frame of the shot's flight over the shield `cells`, and whether the
/// shot hit the Qotile: it moves right; a live cell in its way is destroyed
/// and ends the shot; otherwise a shot at the Qotile's height that gets to
/// the Qotile hits it and ends; a shot past the right edge of the screen is
/// gone.
pub open spec fn cannon_step(z: ZorlonCannon, cells: Seq<u8>) -> (ZorlonCannon, Seq<u8>, bool) {
    if !z.firing {
        (z, cells, false)
    } else {
        let x = (z.shot_x + CANNON_SPEED) as i32;
        let (hit, after) = point_outcome(cells, x as int, z.shot_y as int);
        if hit {
            (shot_ended(z, x), after, false)
        } else if x >= QOTILE_FRONT && at_qotile_height(z.shot_y as int) {
            (shot_ended(z, x), cells, true)
        } else if x > SCREEN_W {
            (shot_ended(z, x), cells, false)
        } else {
            (ZorlonCannon { shot_x: x, shot_y: z.shot_y, firing: true, charged: z.charged }, cells, false)
        }
    }
}

/// `n` frames of the shot's flight, and whether it hit the Qotile in one of
/// them.
pub open spec fn cannon_flight(z: ZorlonCannon, cells: Seq<u8>, n: nat) -> (ZorlonCannon, Seq<u8>, bool)
    decreases n,
{
    if n == 0 {
        (z, cells, false)
    } else {
        let (z1, c1, r1) = cannon_step(z, cells);
        let (z2, c2, r2) = cannon_flight(z1, c1, (n - 1) as nat);
        (z2, c2, r1 || r2)
    }
}

/// The frames a shot takes from the left edge to past the right edge of the
/// screen.
pub open spec fn flight_frames() -> nat {
    80
}

/// Cell `k` reaches from its top to its bottom edge across height `y`.
pub open spec fn cell_spans_height(k: int, y: int) -> bool {
    row_top(cell_row(k)) <= y * SUBPIXELS <= row_bottom(cell_row(k))
}

/// A live cell of column `col` stands at height `y`.
pub open spec fn live_at_height(cells: Seq<u8>, col: int, y: int) -> bool {
    exists|k: int|
        0 <= k < SHIELD_CELLS && cell_col(k) == col && cells[k] > 0 && #[trigger] cell_spans_height(k, y)
}

/// Some live shield cell stands at height `y`.
pub open spec fn height_blocked(cells: Seq<u8>, y: int) -> bool {
    live_at_height(cells, 0, y) || live_at_height(cells, 1, y)
}

/// A cannon with no shot in flight stays as it is, leaves the shield alone
/// and reaches nothing, however many frames pass.
pub proof fn lemma_idle_flight(z: ZorlonCannon, cells: Seq<u8>, n: nat)
    requires
        !z.firing,
    ensures
        cannon_flight(z, cells, n) == (z, cells, false),
    decreases n,
{
    if n > 0 {
        lemma_idle_flight(z, cells, (n - 1) as nat);
    }
}

/// A point meets a cell exactly when some live cell holds it, and the cell
/// it meets holds it; that cell stands at the point's height.
proof fn lemma_point_meets(cells: Seq<u8>, x: int, y: int)
    ensures
        (first_point(cells, x, y) < SHIELD_CELLS) == (exists|k: int|
            0 <= k < SHIELD_CELLS && #[trigger] live_point(cells, x, y, k)),
        first_point(cells, x, y) < SHIELD_CELLS ==> {
            let k = first_point(cells, x, y);
            &&& 0 <= k
            &&& live_point(cells, x, y, k)
            &&& cell_spans_height(k, y)
            &&& 0 <= cell_col(k) < 2
            &&& col_left(cell_col(k)) <= x <= col_left(cell_col(k)) + CELL_W
        },
{
    lemma_first_point(cells, x, y, 0);
    if exists|k: int| 0 <= k < SHIELD_CELLS && #[trigger] live_point(cells, x, y, k) {
        let k = choose|k: int| 0 <= k < SHIELD_CELLS && #[trigger] live_point(cells, x, y, k);
        assert(first_point(cells, x, y) <= k);
    }
}

/// A point in column 0 and not on column 1 meets a cell exactly when a live
/// cell of column 0 stands at its height, and then meets one of those.
proof fn lemma_column0_band(cells: Seq<u8>, x: int, y: int)
    requires
        SHIELD_X <= x < SHIELD_X + CELL_W,
    ensures
        (first_point(cells, x, y) < SHIELD_CELLS) == live_at_height(cells, 0, y),
        first_point(cells, x, y) < SHIELD_CELLS ==> {
            let k = first_point(cells, x, y);
            &&& 0 <= k
            &&& cell_col(k) == 0
            &&& cells[k] > 0
            &&& cell_spans_height(k, y)
        },
{
    lemma_point_meets(cells, x, y);
    let fp = first_point(cells, x, y);
    if fp < SHIELD_CELLS {
        assert(cell_col(fp) == 0);
    }
    if live_at_height(cells, 0, y) {
        let k = choose|k: int|
            0 <= k < SHIELD_CELLS && cell_col(k) == 0 && cells[k] > 0 && #[trigger] cell_spans_height(k, y);
        assert(live_point(cells, x, y, k));
    }
}

/// A point in column 1 and not on column 0 meets a cell exactly when a live
/// cell of column 1 stands at its height, and then meets one of those.
proof fn lemma_column1_band(cells: Seq<u8>, x: int, y: int)
    requires
        SHIELD_X + CELL_W < x <= SHIELD_X + 2 * CELL_W,
    ensures
        (first_point(cells, x, y) < SHIELD_CELLS) == live_at_height(cells, 1, y),
        first_point(cells, x, y) < SHIELD_CELLS ==> {
            let k = first_point(cells, x, y);
            &&& 0 <= k
            &&& cell_col(k) == 1
            &&& cells[k] > 0
            &&& cell_spans_height(k, y)
        },
{
    lemma_point_meets(cells, x, y);
    let fp = first_point(cells, x, y);
    if fp < SHIELD_CELLS {
        assert(cell_col(fp) == 1);
    }
    if live_at_height(cells, 1, y) {
        let k = choose|k: int|
            0 <= k < SHIELD_CELLS && cell_col(k) == 1 && cells[k] > 0 && #[trigger] cell_spans_height(k, y);
        assert(live_point(cells, x, y, k));
    }
}

/// The point on the edge between the columns meets a cell exactly when a
/// live cell of either column stands at its height; with none in column 0 it
/// meets one of column 1.
proof fn lemma_column_edge(cells: Seq<u8>, y: int)
    ensures
        (first_point(cells, SHIELD_X + CELL_W, y) < SHIELD_CELLS) == height_blocked(cells, y),
        first_point(cells, SHIELD_X + CELL_W, y) < SHIELD_CELLS && !live_at_height(cells, 0, y) ==> {
            let k = first_point(cells, SHIELD_X + CELL_W, y);
            &&& 0 <= k
            &&& cell_col(k) == 1
            &&& cells[k] > 0
            &&& cell_spans_height(k, y)
        },
{
    let x = SHIELD_X + CELL_W;
    lemma_point_meets(cells, x, y);
    let fp = first_point(cells, x, y);
    if fp < SHIELD_CELLS {
        if cell_col(fp) == 0 {
            assert(live_at_height(cells, 0, y));
        } else {
            assert(live_at_height(cells, 1, y));
        }
    }
    if live_at_height(cells, 0, y) {
        let k = choose|k: int|
            0 <= k < SHIELD_CELLS && cell_col(k) == 0 && cells[k] > 0 && #[trigger] cell_spans_height(k, y);
        assert(live_point(cells, x, y, k));
    }
    if live_at_height(cells, 1, y) {
        let k = choose|k: int|
            0 <= k < SHIELD_CELLS && cell_col(k) == 1 && cells[k] > 0 && #[trigger] cell_spans_height(k, y);
        assert(live_point(cells, x, y, k));
    }
}

/// A point meets no cell when no live cell stands at its height.
proof fn lemma_clear_height(cells: Seq<u8>, x: int, y: int)
    requires
        !height_blocked(cells, y),
    ensures
        first_point(cells, x, y) >= SHIELD_CELLS,
{
    lemma_point_meets(cells, x, y);
    let fp = first_point(cells, x, y);
    if fp < SHIELD_CELLS {
        if cell_col(fp) == 0 {
            assert(live_at_height(cells, 0, y));
        } else {
            assert(live_at_height(cells, 1, y));
        }
    }
}

/// The shot ended by destroying cell `k`, the first live cell in its way at
/// its height: one in column 0 when there is one, else one in column 1.
pub open spec fn ended_on_first_cell(cells: Seq<u8>, y: int, after: Seq<u8>, k: int) -> bool {
    &&& 0 <= k < SHIELD_CELLS
    &&& cells[k] > 0
    &&& cell_spans_height(k, y)
    &&& (cell_col(k) == 0 || !live_at_height(cells, 0, y))
    &&& after == cells.update(k, 0u8)
}

/// A shot still left of the shield, or inside column 0 at a height where
/// column 0 has no live cell, with a live cell at its height ahead, ends on
/// the first such cell within the frames it needs to cross the shield.
proof fn lemma_no_skip(z: ZorlonCannon, cells: Seq<u8>, n: nat)
    requires
        z.firing,
        z.shot_x < SHIELD_X || (z.shot_x < SHIELD_X + CELL_W && !live_at_height(cells, 0, z.shot_y as int)),
        height_blocked(cells, z.shot_y as int),
        z.shot_x + CANNON_SPEED * n >= SHIELD_X + 2 * CELL_W,
    ensures
        !cannon_flight(z, cells, n).2,
        !cannon_flight(z, cells, n).0.firing,
        exists|k: int| ended_on_first_cell(cells, z.shot_y as int, cannon_flight(z, cells, n).1, k),
    decreases n,
{
    let y = z.shot_y as int;
    let x = (z.shot_x + CANNON_SPEED) as i32;
    assert(x == z.shot_x + CANNON_SPEED);
    let (z1, c1, r1) = cannon_step(z, cells);
    let fp = first_point(cells, x as int, y);
    if x < SHIELD_X {
        crate::shield::lemma_left_of_shield(cells, x as int, y);
        lemma_no_skip(z1, c1, (n - 1) as nat);
    } else if x < SHIELD_X + CELL_W {
        lemma_column0_band(cells, x as int, y);
        if fp < SHIELD_CELLS {
            lemma_idle_flight(z1, c1, (n - 1) as nat);
            assert(ended_on_first_cell(cells, y, c1, fp));
        } else {
            lemma_no_skip(z1, c1, (n - 1) as nat);
        }
    } else if x == SHIELD_X + CELL_W {
        lemma_column_edge(cells, y);
        lemma_idle_flight(z1, c1, (n - 1) as nat);
        assert(ended_on_first_cell(cells, y, c1, fp));
    } else {
        lemma_column1_band(cells, x as int, y);
        lemma_idle_flight(z1, c1, (n - 1) as nat);
        assert(ended_on_first_cell(cells, y, c1, fp));
    }
}

/// The shot cannot skip a shield cell: each step of the shot is shorter than
/// a cell is wide, so a shot from left of the shield at a height where a
/// live cell stands never reaches the Qotile. Within the frames it takes to
/// cross the shield it ends by destroying exactly one cell at its height:
/// one in column 0 if there is one, else one in column 1.
pub proof fn law_shot_cannot_skip_cells(z: ZorlonCannon, cells: Seq<u8>, n: nat)
    requires
        z.firing,
        z.shot_x < SHIELD_X,
        height_blocked(cells, z.shot_y as int),
        z.shot_x + CANNON_SPEED * n >= SHIELD_X + 2 * CELL_W,
    ensures
        !cannon_flight(z, cells, n).2,
        !cannon_flight(z, cells, n).0.firing,
        exists|k: int| ended_on_first_cell(cells, z.shot_y as int, cannon_flight(z, cells, n).1, k),
{
    lemma_no_skip(z, cells, n);
}

/// A shot at a height where no live cell stands, `j` frames after leaving
/// the left edge, hits the Qotile in the frames left exactly when it flies
/// at the Qotile's height, and leaves the shield untouched.
proof fn lemma_clear_flight(z: ZorlonCannon, cells: Seq<u8>, n: nat, j: int)
    requires
        0 <= j < flight_frames(),
        z.firing,
        z.shot_x == SHOT_START_X + CANNON_SPEED * j,
        !height_blocked(cells, z.shot_y as int),
        n + j >= flight_frames(),
    ensures
        cannon_flight(z, cells, n).2 == at_qotile_height(z.shot_y as int),
        cannon_flight(z, cells, n).1 == cells,
    decreases flight_frames() - j,
{
    let y = z.shot_y as int;
    let x = (z.shot_x + CANNON_SPEED) as i32;
    assert(x == SHOT_START_X + CANNON_SPEED * (j + 1));
    lemma_clear_height(cells, x as int, y);
    let (z1, c1, r1) = cannon_step(z, cells);
    assert(c1 == cells);
    if !z1.firing {
        lemma_idle_flight(z1, c1, (n - 1) as nat);
    } else {
        assert(j + 1 < flight_frames());
        lemma_clear_flight(z1, c1, (n - 1) as nat, j + 1);
    }
}

/// The Zorlon Cannon hits the Qotile only through a clear path: a shot fired
/// from the left edge hits the Qotile (given the frames its flight takes)
/// exactly when it flies at the Qotile's height and no live shield cell
/// stands at that height, so the player must nibble a way through the shield
/// first; a shot that hits the Qotile leaves the shield untouched.
pub proof fn law_cannon_needs_clear_path(z: ZorlonCannon, cells: Seq<u8>, n: nat)
    requires
        z.firing,
        z.shot_x == SHOT_START_X,
        n >= flight_frames(),
    ensures
        cannon_flight(z, cells, n).2 <==> (!height_blocked(cells, z.shot_y as int) && at_qotile_height(
            z.shot_y as int,
        )),
        cannon_flight(z, cells, n).2 ==> cannon_flight(z, cells, n).1 == cells,
{
    if height_blocked(cells, z.shot_y as int) {
        lemma_no_skip(z, cells, n);
    } else {
        lemma_clear_flight(z, cells, n, 0);
    }
}

/// Charging sets the charge and nothing else; firing needs a charge and no
/// shot in flight, starts the shot at x = 4 at the given height and uses up
/// the charge; otherwise it changes nothing.
pub proof fn law_cannon_charge_and_fire(z: ZorlonCannon, y: i32)
    ensures
        cannon_charged(z).charged,
        cannon_charged(z).firing == z.firing && cannon_charged(z).shot_x == z.shot_x && cannon_charged(z).shot_y
            == z.shot_y,
        z.charged && !z.firing ==> cannon_fired(z, y) == (ZorlonCannon {
            shot_x: 4,
            shot_y: y,
            firing: true,
            charged: false,
        }),
        !(z.charged && !z.firing) ==> cannon_fired(z, y) == z,
{
}

/// Whether a shot at height `y` meets the Qotile.
pub fn meets_qotile_height(y: i32) -> (r: bool)
    ensures
        r == at_qotile_height(y as int),
{
    y >= QOTILE_Y - QOTILE_RADIUS && y <= QOTILE_Y + QOTILE_RADIUS
}

impl ZorlonCannon {
    /// An uncharged cannon with no shot in flight.
    pub fn new() -> (z: Self)
        ensures
            z == (ZorlonCannon { shot_x: 0, shot_y: 0, firing: false, charged: false }),
    {
        ZorlonCannon { shot_x: 0, shot_y: 0, firing: false, charged: false }
    }

    /// Charges the cannon.
    pub fn charge(&mut self)
        ensures
            *final(self) == cannon_charged(*old(self)),
    {
        self.charged = true;
    }

    /// Fires the cannon at height `yar_center_y`, if it is charged and no shot
    /// is in flight.
    pub fn fire(&mut self, yar_center_y: i32)
        ensures
            *final(self) == cannon_fired(*old(self), yar_center_y),
    {
        if self.charged && !self.firing {
            self.shot_x = SHOT_START_X;
            self.shot_y = yar_center_y;
            self.firing = true;
            self.charged = false;
        }
    }

    /// Moves the shot one frame on: it destroys a shield cell in its way, or
    /// hits the Qotile, or leaves the screen. Returns whether it hit the
    /// Qotile.
    pub fn update(&mut self, shield: &mut Shield) -> (reached: bool)
        requires
            old(shield).wf(),
            old(self).firing ==> old(self).shot_x <= i32::MAX - CANNON_SPEED,
        ensures
            final(shield).wf(),
            (*final(self), final(shield)@, reached) == cannon_step(*old(self), old(shield)@),
    {
        if self.firing {
            self.shot_x = self.shot_x + CANNON_SPEED;
            if shield.nibble_missile(self.shot_x, self.shot_y) {
                self.firing = false;
                return false;
            }
            if self.shot_x >= QOTILE_FRONT && meets_qotile_height(self.shot_y) {
                self.firing = false;
                return true;
            }
            if self.shot_x > SCREEN_W {
                self.firing = false;
            }
        }
        false
    }
}

} // verus!
