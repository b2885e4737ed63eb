//! Counting the live cells of a shield.
use vstd::prelude::*;
use crate::geometry::SHIELD_CELLS;
use crate::shield::{
    cells_wf, worn_down, contact_outcome, point_outcome, first_contact, first_point, lemma_first_contact,
    lemma_first_point,
};

verus! {

/// 1 for a live cell, 0 for one that is gone.
pub open spec fn live_bit(v: u8) -> int {
    if v > 0 { 1 } else { 0 }
}

/// The number of live cells among the first `n`.
pub open spec fn live_upto(cells: Seq<u8>, n: int) -> int
    decreases n,
{
    if n <= 0 {
        0
    } else {
        live_upto(cells, n - 1) + live_bit(cells[n - 1])
    }
}

/// The number of live cells of a shield.
pub open spec fn live_count(cells: Seq<u8>) -> int {
    live_upto(cells, SHIELD_CELLS as int)
}

/// Overwriting one cell changes the count by what that cell's liveness changed.
pub proof fn lemma_live_upto_update(cells: Seq<u8>, k: int, v: u8, n: int)
    requires
        0 <= k < cells.len(),
        n <= cells.len(),
    ensures
        live_upto(cells.update(k, v), n) == live_upto(cells, n) + if k < n {
            live_bit(v) - live_bit(cells[k])
        } else {
            0
        },
    decreases n,
{
    if n > 0 {
        lemma_live_upto_update(cells, k, v, n - 1);
    }
}

/// The count lies between none and all.
pub proof fn lemma_live_upto_bounds(cells: Seq<u8>, n: int)
    ensures
        0 <= live_upto(cells, n) <= if n < 0 { 0 } else { n },
    decreases n,
{
    if n > 0 {
        lemma_live_upto_bounds(cells, n - 1);
    }
}

/// When every one of the first `n` cells is live, all `n` are counted.
pub proof fn lemma_all_live(cells: Seq<u8>, n: int)
    requires
        0 <= n <= cells.len(),
        forall|k: int| 0 <= k < n ==> #[trigger] cells[k] > 0,
    ensures
        live_upto(cells, n) == n,
    decreases n,
{
    if n > 0 {
        lemma_all_live(cells, n - 1);
    }
}

/// A contact keeps the shield well formed, only wears it down, and eats one
/// live cell exactly when it reports `Consumed`.
pub proof fn lemma_contact_tally(cells: Seq<u8>, x: int, y: int, w: int, h: int)
    requires
        cells_wf(cells),
    ensures
        cells_wf(contact_outcome(cells, x, y, w, h).1),
        worn_down(cells, contact_outcome(cells, x, y, w, h).1),
        live_count(contact_outcome(cells, x, y, w, h).1) == live_count(cells) - if contact_outcome(
            cells,
            x,
            y,
            w,
            h,
        ).0 is Consumed {
            1int
        } else {
            0int
        },
{
    lemma_first_contact(cells, x, y, w, h, 0);
    let k = first_contact(cells, x, y, w, h);
    if k < SHIELD_CELLS {
        let left = (cells[k] - 1) as u8;
        lemma_live_upto_update(cells, k, left, SHIELD_CELLS as int);
        let after = cells.update(k, left);
        assert(cells_wf(after)) by {
            assert forall|j: int| 0 <= j < SHIELD_CELLS implies #[trigger] after[j] <= 2 by {
                if j != k {
                    assert(after[j] == cells[j]);
                }
            }
        }
    }
}

/// A projectile keeps the shield well formed, only wears it down, and takes
/// one live cell exactly when it is stopped.
pub proof fn lemma_point_tally(cells: Seq<u8>, x: int, y: int)
    requires
        cells_wf(cells),
    ensures
        cells_wf(point_outcome(cells, x, y).1),
        worn_down(cells, point_outcome(cells, x, y).1),
        live_count(point_outcome(cells, x, y).1) == live_count(cells) - if point_outcome(
            cells,
            x,
            y,
        ).0 {
            1int
        } else {
            0int
        },
{
    lemma_first_point(cells, x, y, 0);
    let k = first_point(cells, x, y);
    if k < SHIELD_CELLS {
        lemma_live_upto_update(cells, k, 0u8, SHIELD_CELLS as int);
        let after = cells.update(k, 0u8);
        assert(cells_wf(after)) by {
            assert forall|j: int| 0 <= j < SHIELD_CELLS implies #[trigger] after[j] <= 2 by {
                if j != k {
                    assert(after[j] == cells[j]);
                }
            }
        }
    }
}

} // verus!
