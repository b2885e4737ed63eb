//! Yar's ordinary missile: always available, stopped by the first shield cell
//! it meets, which it destroys.
use vstd::prelude::*;
use crate::geometry::{MISSILE_SPEED, SCREEN_W};
use crate::shield::{Shield, point_outcome};

verus! {

/// The missile: where it is and whether it is in flight.
#[derive(Clone, Copy, Debug, PartialEq, Eq, Structural)]
pub struct Missile {
    pub x: i32,
    pub y: i32,
    pub active: bool,
}

/// A missile after a shot from `(from_x, from_y)`: one already in flight is
/// not fired again.
pub open spec fn missile_fired(m: Missile, from_x: i32, from_y: i32) -> Missile {
    if m.active {
        m
    } else {
        Missile { x: from_x, y: from_y, active: true }
    }
}

/// One frame of a missile's flight over the shield `cells`: it moves right;
/// past the right edge of the screen it is gone, and in a live cell it
/// destroys that cell and is gone.
pub open spec fn missile_step(m: Missile, cells: Seq<u8>) -> (Missile, Seq<u8>) {
    if !m.active {
        (m, cells)
    } else {
        let x = (m.x + MISSILE_SPEED) as i32;
        if x > SCREEN_W {
            (Missile { x: x, y: m.y, active: false }, cells)
        } else {
            let (hit, after) = point_outcome(cells, x as int, m.y as int);
            (Missile { x: x, y: m.y, active: !hit }, after)
        }
    }
}

/// A missile in flight moves 8 px right each frame and keeps its height;
/// past x = 800 it is gone and the shield is untouched; otherwise it stays in
/// flight exactly when no live cell holds its new position, and the shield
/// is what that point does to it. A missile not in flight does nothing.
pub proof fn law_missile_flight(m: Missile, cells: Seq<u8>)
    requires
        m.x <= 800,
    ensures
        ({
            let (m2, after) = missile_step(m, cells);
            &&& !m.active ==> m2 == m && after == cells
            &&& m.active ==> m2.x == m.x + 8 && m2.y == m.y
            &&& m.active && m.x + 8 > 800 ==> !m2.active && after == cells
            &&& m.active && m.x + 8 <= 800 ==> m2.active == !point_outcome(cells, m.x + 8, m.y as int).0
                && after == point_outcome(cells, m.x + 8, m.y as int).1
        }),
{
}

/// Firing launches a missile at the given point only when none is in flight.
pub proof fn law_missile_fires_once(m: Missile, from_x: i32, from_y: i32)
    ensures
        m.active ==> missile_fired(m, from_x, from_y) == m,
        !m.active ==> missile_fired(m, from_x, from_y) == (Missile { x: from_x, y: from_y, active: true }),
{
}

impl Missile {
    /// A missile that is not in flight.
    pub fn new() -> (m: Self)
        ensures
            m == (Missile { x: 0, y: 0, active: false }),
    {
        Missile { x: 0, y: 0, active: false }
    }

    /// Launches the missile from `(from_x, from_y)` unless it is in flight.
    pub fn fire(&mut self, from_x: i32, from_y: i32)
        ensures
            *final(self) == missile_fired(*old(self), from_x, from_y),
    {
        if !self.active {
            self.x = from_x;
            self.y = from_y;
            self.active = true;
        }
    }

    /// Moves the missile one frame on, against the shield.
    pub fn update(&mut self, shield: &mut Shield)
        requires
            old(shield).wf(),
            old(self).active ==> old(self).x <= i32::MAX - MISSILE_SPEED,
        ensures
            final(shield).wf(),
            (*final(self), final(shield)@) == missile_step(*old(self), old(shield)@),
    {
        if self.active {
            self.x = self.x + MISSILE_SPEED;
            if self.x > SCREEN_W {
                self.active = false;
                return;
            }
            if shield.nibble_missile(self.x, self.y) {
                self.active = false;
            }
        }
    }
}

} // verus!
