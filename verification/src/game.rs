//! One game: Yar, the shield, the missile, the cannon, the score, and the
//! decisions taken each frame. The Swirl's flight is computed by the caller,
//! which reports to the game what the Swirl did.
use vstd::prelude::*;
use crate::geometry::{
    SCREEN_W, SCREEN_H, YAR_SIZE, CANNON_SPEED, YAR_SPEED, NEUTRAL_ZONE_X, NEUTRAL_ZONE_W, SHIELD_CELLS,
};
use crate::shield::{
    Shield, NibbleResult, cells_wf, worn_down, contact_outcome, column_clear, lemma_left_of_shield,
};
use crate::missile::{Missile, missile_fired, missile_step};
use crate::cannon::{ZorlonCannon, cannon_charged, cannon_fired, cannon_step, shot_ended, SHOT_START_X};
use crate::tally::{live_count, lemma_contact_tally, lemma_point_tally, lemma_live_upto_bounds, lemma_all_live};

verus! {

/// Points for eating a shield cell.
pub const CELL_POINTS: u32 = 10;
/// Points for destroying the Qotile.
pub const QOTILE_POINTS: u32 = 1000;
/// Points for shooting down the Swirl.
pub const SWIRL_POINTS: u32 = 250;
/// Frames between two launches of the Swirl by the timer.
pub const SWIRL_PERIOD: u32 = 180;
/// The highest score a game can reach.
pub const MAX_SCORE: u32 = 7240;

/// Where Yar starts.
pub const YAR_START_X: i32 = 60;
pub const YAR_START_Y: i32 = 300;

/// Whether the game goes on, was won or was lost.
#[derive(Clone, Copy, Debug, PartialEq, Eq, Structural)]
pub enum GameState {
    Playing,
    Win,
    Lose,
}

/// The keys that matter in one frame: the arrow keys held down, and whether
/// the fire key was pressed.
#[derive(Clone, Copy, Debug, PartialEq, Eq, Structural)]
pub struct FrameInput {
    pub up: bool,
    pub down: bool,
    pub left: bool,
    pub right: bool,
    pub fire: bool,
}

/// The state of a game, as values.
pub struct GameView {
    pub yar_x: int,
    pub yar_y: int,
    pub cells: Seq<u8>,
    pub missile: Missile,
    pub cannon: ZorlonCannon,
    pub swirl_timer: int,
    pub state: GameState,
    pub score: int,
}

/// One game.
pub struct Game {
    yar_x: i32,
    yar_y: i32,
    shield: Shield,
    missile: Missile,
    zorlon: ZorlonCannon,
    swirl_timer: u32,
    state: GameState,
    score: u32,
}

impl View for Game {
    type V = GameView;

    closed spec fn view(&self) -> GameView {
        GameView {
            yar_x: self.yar_x as int,
            yar_y: self.yar_y as int,
            cells: self.shield@,
            missile: self.missile,
            cannon: self.zorlon,
            swirl_timer: self.swirl_timer as int,
            state: self.state,
            score: self.score as int,
        }
    }
}

pub open spec fn clamp(v: int, lo: int, hi: int) -> int {
    if v < lo {
        lo
    } else if v > hi {
        hi
    } else {
        v
    }
}

/// The rightmost position of Yar.
pub open spec fn yar_max_x() -> int {
    SCREEN_W - YAR_SIZE
}

/// The lowest position of Yar.
pub open spec fn yar_max_y() -> int {
    SCREEN_H - YAR_SIZE
}

/// Where the arrow keys take Yar: sideways it stops at the screen's edges,
/// past the top or the bottom it wraps around to the other side.
pub open spec fn moved_yar(x: int, y: int, input: FrameInput) -> (int, int) {
    let x1 = x - (if input.left { YAR_SPEED as int } else { 0 }) + (if input.right { YAR_SPEED as int } else { 0 });
    let y1 = y - (if input.up { YAR_SPEED as int } else { 0 }) + (if input.down { YAR_SPEED as int } else { 0 });
    (clamp(x1, 0, yar_max_x()), if y1 < 0 { yar_max_y() } else if y1 > yar_max_y() { 0 } else { y1 })
}

/// Yar at `x` is inside the neutral zone, where the Swirl cannot harm it.
pub open spec fn in_neutral_zone(x: int) -> bool {
    x + YAR_SIZE > NEUTRAL_ZONE_X && x < NEUTRAL_ZONE_X + NEUTRAL_ZONE_W
}

/// The game at its start.
pub open spec fn initial_view() -> GameView {
    GameView {
        yar_x: YAR_START_X as int,
        yar_y: YAR_START_Y as int,
        cells: Seq::new(SHIELD_CELLS as nat, |k: int| 2u8),
        missile: Missile { x: 0, y: 0, active: false },
        cannon: ZorlonCannon { shot_x: 0, shot_y: 0, firing: false, charged: false },
        swirl_timer: 0,
        state: GameState::Playing,
        score: 0,
    }
}

/// Points the game can still hand out: each live cell can still be eaten
/// and charge a shot, each charge or shot in flight can still down the
/// Swirl, and a game in play can still destroy the Qotile.
pub open spec fn score_potential(g: GameView) -> int {
    CELL_POINTS * live_count(g.cells) + SWIRL_POINTS * (live_count(g.cells) + (if g.cannon.charged {
        1int
    } else {
        0int
    }) + (if g.cannon.firing {
        1int
    } else {
        0int
    })) + if g.state == GameState::Playing {
        QOTILE_POINTS as int
    } else {
        0int
    }
}

/// A state a game can be in: Yar on screen, a well formed shield, the
/// missile and the shot on their way across, the Swirl timer within its
/// period, and the score plus what can still be won within the ceiling.
pub open spec fn game_wf(g: GameView) -> bool {
    &&& 0 <= g.yar_x <= yar_max_x()
    &&& 0 <= g.yar_y <= yar_max_y()
    &&& cells_wf(g.cells)
    &&& g.missile.active ==> g.missile.x <= SCREEN_W
    &&& g.cannon.firing ==> g.cannon.shot_x <= SCREEN_W
    &&& 0 <= g.swirl_timer <= SWIRL_PERIOD
    &&& 0 <= g.score
    &&& g.score + score_potential(g) <= MAX_SCORE
}

/// One frame of play before the Swirl moves: Yar moves and may bump into the
/// shield (an intact cell pushes it back, a damaged one is eaten, scores and
/// charges the cannon), the fire key fires the cannon when it is charged and
/// the missile otherwise, then the missile and the shot fly on; a shot that
/// hits the Qotile (at its height) wins the game. A game that is over does not change.
pub open spec fn frame_view(g: GameView, input: FrameInput) -> GameView {
    if g.state != GameState::Playing {
        g
    } else {
        let (x1, y1) = moved_yar(g.yar_x, g.yar_y, input);
        let center = (y1 + YAR_SIZE / 2) as i32;
        let (res, cells1) = contact_outcome(g.cells, x1, y1, YAR_SIZE as int, YAR_SIZE as int);
        let x2 = match res {
            NibbleResult::Hit(dx, _) => clamp(x1 + dx, 0, yar_max_x()),
            _ => x1,
        };
        let y2 = match res {
            NibbleResult::Hit(_, dy) => clamp(y1 + dy, 0, yar_max_y()),
            _ => y1,
        };
        let consumed = res is Consumed;
        let score1 = if consumed { g.score + CELL_POINTS } else { g.score };
        let cannon1 = if consumed { cannon_charged(g.cannon) } else { g.cannon };
        let cannon2 = if input.fire && cannon1.charged { cannon_fired(cannon1, center) } else { cannon1 };
        let missile1 = if input.fire && !cannon1.charged {
            missile_fired(g.missile, (x2 + YAR_SIZE) as i32, center)
        } else {
            g.missile
        };
        let (missile2, cells2) = missile_step(missile1, cells1);
        let (cannon3, cells3, reached) = cannon_step(cannon2, cells2);
        GameView {
            yar_x: x2,
            yar_y: y2,
            cells: cells3,
            missile: missile2,
            cannon: cannon3,
            swirl_timer: g.swirl_timer,
            state: if reached { GameState::Win } else { GameState::Playing },
            score: if reached { score1 + QOTILE_POINTS } else { score1 },
        }
    }
}

/// The game after the Swirl came within reach of the cannon's shot: a shot in
/// flight downs it, ending the shot and scoring.
pub open spec fn swirl_shot_view(g: GameView, swirl_in_reach: bool) -> GameView {
    if swirl_in_reach && g.cannon.firing {
        GameView {
            cannon: shot_ended(g.cannon, g.cannon.shot_x),
            score: g.score + SWIRL_POINTS,
            ..g
        }
    } else {
        g
    }
}

/// The game after a tick of the Swirl's launch timer, and whether the timer
/// launches the Swirl: it does once more than a period has passed, and starts
/// counting again.
pub open spec fn timer_view(g: GameView) -> (GameView, bool) {
    if g.swirl_timer + 1 > SWIRL_PERIOD {
        (GameView { swirl_timer: 0, ..g }, true)
    } else {
        (GameView { swirl_timer: g.swirl_timer + 1, ..g }, false)
    }
}

/// The game after the Swirl touched Yar (when `touching`): outside the
/// neutral zone that loses the game.
pub open spec fn swirl_touch_view(g: GameView, touching: bool) -> GameView {
    if touching && !in_neutral_zone(g.yar_x) {
        GameView { state: GameState::Lose, ..g }
    } else {
        g
    }
}

/// Every frame keeps the game in a sound state (Yar on screen, the shield
/// well formed, the score within its ceiling), never lowers the score and
/// never regrows the shield.
pub proof fn law_frame_keeps_game_sound(g: GameView, input: FrameInput)
    requires
        game_wf(g),
    ensures
        game_wf(frame_view(g, input)),
        frame_view(g, input).score >= g.score,
        worn_down(g.cells, frame_view(g, input).cells),
{
    if g.state == GameState::Playing {
        let (x1, y1) = moved_yar(g.yar_x, g.yar_y, input);
        let center = (y1 + YAR_SIZE / 2) as i32;
        lemma_contact_tally(g.cells, x1, y1, YAR_SIZE as int, YAR_SIZE as int);
        let (res, cells1) = contact_outcome(g.cells, x1, y1, YAR_SIZE as int, YAR_SIZE as int);
        let x2 = match res {
            NibbleResult::Hit(dx, _) => clamp(x1 + dx, 0, yar_max_x()),
            _ => x1,
        };
        let consumed = res is Consumed;
        let cannon1 = if consumed { cannon_charged(g.cannon) } else { g.cannon };
        let cannon2 = if input.fire && cannon1.charged { cannon_fired(cannon1, center) } else { cannon1 };
        let missile1 = if input.fire && !cannon1.charged {
            missile_fired(g.missile, (x2 + YAR_SIZE) as i32, center)
        } else {
            g.missile
        };
        if missile1.active && missile1.x + 8 <= SCREEN_W {
            lemma_point_tally(cells1, (missile1.x + 8) as i32 as int, missile1.y as int);
        }
        let (missile2, cells2) = missile_step(missile1, cells1);
        if cannon2.firing {
            lemma_point_tally(cells2, (cannon2.shot_x + 10) as i32 as int, cannon2.shot_y as int);
        }
        lemma_live_upto_bounds(g.cells, SHIELD_CELLS as int);
        lemma_live_upto_bounds(frame_view(g, input).cells, SHIELD_CELLS as int);
    }
}

/// `v` held between `lo` and `hi`.
pub fn clamp_i32(v: i32, lo: i32, hi: i32) -> (r: i32)
    requires
        lo <= hi,
    ensures
        r == clamp(v as int, lo as int, hi as int),
{
    if v < lo {
        lo
    } else if v > hi {
        hi
    } else {
        v
    }
}

/// Moves Yar at `(x, y)` by the arrow keys held down: sideways it stops at
/// the screen's edges, past the top or the bottom it wraps around.
pub fn move_yar(x: i32, y: i32, input: FrameInput) -> (p: (i32, i32))
    requires
        i32::MIN + YAR_SPEED <= x <= i32::MAX - YAR_SPEED,
        i32::MIN + YAR_SPEED <= y <= i32::MAX - YAR_SPEED,
    ensures
        (p.0 as int, p.1 as int) == moved_yar(x as int, y as int, input),
{
    let mut nx: i32 = x;
    let mut ny: i32 = y;
    if input.up {
        ny = ny - YAR_SPEED;
    }
    if input.down {
        ny = ny + YAR_SPEED;
    }
    if input.left {
        nx = nx - YAR_SPEED;
    }
    if input.right {
        nx = nx + YAR_SPEED;
    }
    nx = clamp_i32(nx, 0, SCREEN_W - YAR_SIZE);
    if ny < 0 {
        ny = SCREEN_H - YAR_SIZE;
    }
    if ny > SCREEN_H - YAR_SIZE {
        ny = 0;
    }
    (nx, ny)
}

/// Whether Yar at `yar_x` is inside the neutral zone.
pub fn is_in_neutral_zone(yar_x: i32) -> (r: bool)
    requires
        yar_x <= i32::MAX - YAR_SIZE,
    ensures
        r == in_neutral_zone(yar_x as int),
        r == (NEUTRAL_ZONE_X - YAR_SIZE < yar_x < NEUTRAL_ZONE_X + NEUTRAL_ZONE_W),
{
    yar_x + YAR_SIZE > NEUTRAL_ZONE_X && yar_x < NEUTRAL_ZONE_X + NEUTRAL_ZONE_W
}

/// Once a game is won or lost, frames change nothing until it is restarted.
pub proof fn law_game_over_is_final(g: GameView, input: FrameInput)
    requires
        g.state != GameState::Playing,
    ensures
        frame_view(g, input) == g,
{
}

/// The neutral zone is safe: inside it, the Swirl touching Yar changes
/// nothing.
pub proof fn law_neutral_zone_is_safe(g: GameView, touching: bool)
    requires
        in_neutral_zone(g.yar_x),
    ensures
        swirl_touch_view(g, touching) == g,
{
}

/// The neutral zone is the stripe from x = 250 to x = 400: while any part of
/// Yar's body is over it, the Swirl touching Yar changes nothing; anywhere
/// else, it loses the game and changes nothing more.
pub proof fn law_neutral_zone_bounds(g: GameView)
    ensures
        NEUTRAL_ZONE_X - YAR_SIZE < g.yar_x < NEUTRAL_ZONE_X + NEUTRAL_ZONE_W ==> swirl_touch_view(g, true) == g,
        !(NEUTRAL_ZONE_X - YAR_SIZE < g.yar_x < NEUTRAL_ZONE_X + NEUTRAL_ZONE_W) ==> swirl_touch_view(g, true)
            == (GameView { state: GameState::Lose, ..g }),
        swirl_touch_view(g, false) == g,
        218 < g.yar_x < 400 <==> in_neutral_zone(g.yar_x),
{
}

/// Downing the Swirl ends the shot where it is and scores 250 points, and
/// leaves everything else, the cannon's charge included, as it was; without
/// a shot in flight, or with the Swirl out of reach, nothing happens.
pub proof fn law_downing_swirl(g: GameView, swirl_in_reach: bool)
    ensures
        ({
            let f = swirl_shot_view(g, swirl_in_reach);
            if swirl_in_reach && g.cannon.firing {
                &&& !f.cannon.firing
                &&& f.cannon.charged == g.cannon.charged
                &&& f.cannon.shot_x == g.cannon.shot_x
                &&& f.cannon.shot_y == g.cannon.shot_y
                &&& f.score == g.score + 250
                &&& f.yar_x == g.yar_x && f.yar_y == g.yar_y
                &&& f.cells == g.cells && f.missile == g.missile
                &&& f.swirl_timer == g.swirl_timer && f.state == g.state
            } else {
                f == g
            }
        }),
{
}

/// A bump that pushes Yar back moves it by the push on both axes, held on the
/// screen: a push of `(dx, dy)` from where the keys took Yar.
pub proof fn law_bounce_moves_yar(g: GameView, input: FrameInput, dx: i32, dy: i32)
    requires
        g.state == GameState::Playing,
        contact_outcome(
            g.cells,
            moved_yar(g.yar_x, g.yar_y, input).0,
            moved_yar(g.yar_x, g.yar_y, input).1,
            32,
            32,
        ).0 == NibbleResult::Hit(dx, dy),
    ensures
        ({
            let (x1, y1) = moved_yar(g.yar_x, g.yar_y, input);
            let f = frame_view(g, input);
            &&& f.yar_x == if x1 + dx < 0 {
                0
            } else if x1 + dx > 768 {
                768
            } else {
                x1 + dx
            }
            &&& f.yar_y == if y1 + dy < 0 {
                0
            } else if y1 + dy > 568 {
                568
            } else {
                y1 + dy
            }
        }),
{
}

/// Without a push from the shield, Yar ends the frame where the keys took it.
pub proof fn law_no_bounce_keeps_move(g: GameView, input: FrameInput)
    requires
        g.state == GameState::Playing,
        !(contact_outcome(
            g.cells,
            moved_yar(g.yar_x, g.yar_y, input).0,
            moved_yar(g.yar_x, g.yar_y, input).1,
            32,
            32,
        ).0 is Hit),
    ensures
        (frame_view(g, input).yar_x, frame_view(g, input).yar_y) == moved_yar(g.yar_x, g.yar_y, input),
{
}

/// The arrow keys move Yar 4 px a frame: up and down wrap from the top edge
/// to y = 568 and from the bottom edge to y = 0, left and right stop at
/// x = 0 and x = 768; opposite keys cancel.
pub proof fn law_yar_moves_four_pixels(x: int, y: int, input: FrameInput)
    requires
        0 <= x <= 768,
        0 <= y <= 568,
    ensures
        ({
            let (nx, ny) = moved_yar(x, y, input);
            &&& (input.up == input.down ==> ny == y)
            &&& (input.up && !input.down ==> ny == if y >= 4 { y - 4 } else { 568 })
            &&& (input.down && !input.up ==> ny == if y <= 564 { y + 4 } else { 0 })
            &&& (input.left == input.right ==> nx == x)
            &&& (input.left && !input.right ==> nx == if x >= 4 { x - 4 } else { 0 })
            &&& (input.right && !input.left ==> nx == if x <= 764 { x + 4 } else { 768 })
        }),
{
}

/// Scoring in a frame: 10 points for eating a cell, 1000 more when the shot
/// destroys the Qotile, which wins the game; a frame never loses the game.
pub proof fn law_frame_scoring(g: GameView, input: FrameInput)
    requires
        g.state == GameState::Playing,
    ensures
        ({
            let (x1, y1) = moved_yar(g.yar_x, g.yar_y, input);
            let f = frame_view(g, input);
            &&& f.state != GameState::Lose
            &&& f.score == g.score + (if contact_outcome(g.cells, x1, y1, 32, 32).0 is Consumed {
                10int
            } else {
                0int
            }) + (if f.state == GameState::Win {
                1000int
            } else {
                0int
            })
        }),
{
}

/// The Swirl's timer launches the Swirl on every 181st tick: it counts up
/// from 0 and, when it would pass 180, launches and starts again from 0;
/// nothing else changes.
pub proof fn law_swirl_timer(g: GameView)
    requires
        0 <= g.swirl_timer <= 180,
    ensures
        ({
            let (f, launch) = timer_view(g);
            &&& launch == (g.swirl_timer == 180)
            &&& f.swirl_timer == if g.swirl_timer == 180 { 0 } else { g.swirl_timer + 1 }
            &&& f == (GameView { swirl_timer: f.swirl_timer, ..g })
        }),
{
}

/// A new game has Yar at (60, 300), every shield cell intact, nothing in
/// flight, the cannon uncharged, the Swirl's timer at 0 and no score.
pub proof fn law_new_game()
    ensures
        initial_view().yar_x == 60 && initial_view().yar_y == 300,
        initial_view().cells.len() == 24,
        forall|k: int| 0 <= k < 24 ==> #[trigger] initial_view().cells[k] == 2,
        !initial_view().missile.active,
        !initial_view().cannon.firing && !initial_view().cannon.charged,
        initial_view().swirl_timer == 0,
        initial_view().state == GameState::Playing,
        initial_view().score == 0,
{
}

/// With the cannon charged and no shot in flight, the fire key fires the
/// cannon, not the missile: after the frame the shot flies at Yar's middle,
/// 10 px out from the left edge, the charge used up, and the missile is not
/// launched.
pub proof fn law_fire_uses_charged_cannon(g: GameView, input: FrameInput)
    requires
        game_wf(g),
        g.state == GameState::Playing,
        input.fire,
        g.cannon.charged,
        !g.cannon.firing,
        !g.missile.active,
    ensures
        frame_view(g, input).cannon.firing,
        frame_view(g, input).cannon.shot_x == 14,
        frame_view(g, input).cannon.shot_y == moved_yar(g.yar_x, g.yar_y, input).1 + 16,
        !frame_view(g, input).cannon.charged,
        !frame_view(g, input).missile.active,
{
    let (x1, y1) = moved_yar(g.yar_x, g.yar_y, input);
    let center = (y1 + YAR_SIZE / 2) as i32;
    let cells1 = contact_outcome(g.cells, x1, y1, YAR_SIZE as int, YAR_SIZE as int).1;
    let cells2 = missile_step(g.missile, cells1).1;
    lemma_left_of_shield(cells2, SHOT_START_X + CANNON_SPEED, center as int);
}

/// No game ever scores more than `MAX_SCORE`.
pub proof fn law_score_ceiling(g: GameView)
    requires
        game_wf(g),
    ensures
        0 <= g.score <= MAX_SCORE,
{
    lemma_live_upto_bounds(g.cells, SHIELD_CELLS as int);
}

/// Eating a shield cell charges the Zorlon Cannon: after a frame in which
/// Yar ate a cell, the cannon is charged, or its shot is on its way.
pub proof fn law_eating_charges_cannon(g: GameView, input: FrameInput)
    requires
        game_wf(g),
        g.state == GameState::Playing,
        ({
            let (x1, y1) = moved_yar(g.yar_x, g.yar_y, input);
            contact_outcome(g.cells, x1, y1, YAR_SIZE as int, YAR_SIZE as int).0 is Consumed
        }),
    ensures
        frame_view(g, input).cannon.charged || frame_view(g, input).cannon.firing,
{
    let (x1, y1) = moved_yar(g.yar_x, g.yar_y, input);
    let center = (y1 + YAR_SIZE / 2) as i32;
    let cells1 = contact_outcome(g.cells, x1, y1, YAR_SIZE as int, YAR_SIZE as int).1;
    let cannon1 = cannon_charged(g.cannon);
    let x2 = x1;
    let missile1 = if input.fire && !cannon1.charged {
        missile_fired(g.missile, (x2 + YAR_SIZE) as i32, center)
    } else {
        g.missile
    };
    let cells2 = missile_step(missile1, cells1).1;
    lemma_left_of_shield(cells2, SHOT_START_X + CANNON_SPEED, center as int);
}

impl Game {
    /// The game is well formed.
    pub open spec fn wf(&self) -> bool {
        game_wf(self@)
    }

    /// A new game: Yar at its start, the shield intact, nothing in flight, no
    /// score.
    pub fn new() -> (g: Self)
        ensures
            g.wf(),
            g@ == initial_view(),
    {
        let g = Game {
            yar_x: YAR_START_X,
            yar_y: YAR_START_Y,
            shield: Shield::new(),
            missile: Missile::new(),
            zorlon: ZorlonCannon::new(),
            swirl_timer: 0,
            state: GameState::Playing,
            score: 0,
        };
        assert(g@ == initial_view());
        proof {
            lemma_all_live(g@.cells, SHIELD_CELLS as int);
        }
        g
    }

    /// Plays the part of a frame that comes before the Swirl moves (see
    /// `frame_view`). Returns whether the game was in play, in which case the
    /// rest of the frame is to be played too.
    pub fn begin_frame(&mut self, input: FrameInput) -> (played: bool)
        requires
            old(self).wf(),
        ensures
            final(self).wf(),
            final(self)@ == frame_view(old(self)@, input),
            played == (old(self)@.state == GameState::Playing),
    {
        proof {
            law_frame_keeps_game_sound(self@, input);
            lemma_live_upto_bounds(self@.cells, SHIELD_CELLS as int);
        }
        if self.state != GameState::Playing {
            return false;
        }
        let (x1, y1) = move_yar(self.yar_x, self.yar_y, input);
        let center: i32 = y1 + YAR_SIZE / 2;
        let mut x: i32 = x1;
        let mut y: i32 = y1;
        match self.shield.nibble_contact(x1, y1, YAR_SIZE, YAR_SIZE) {
            NibbleResult::Hit(dx, dy) => {
                x = clamp_i32(x1 + dx, 0, SCREEN_W - YAR_SIZE);
                y = clamp_i32(y1 + dy, 0, SCREEN_H - YAR_SIZE);
            },
            NibbleResult::Consumed => {
                self.score = self.score + CELL_POINTS;
                self.zorlon.charge();
            },
            NibbleResult::Miss => {},
        }
        self.yar_x = x;
        self.yar_y = y;
        if input.fire {
            if self.zorlon.charged {
                self.zorlon.fire(center);
            } else {
                self.missile.fire(x + YAR_SIZE, center);
            }
        }
        self.missile.update(&mut self.shield);
        if self.zorlon.update(&mut self.shield) {
            self.score = self.score + QOTILE_POINTS;
            self.state = GameState::Win;
        }
        true
    }

    /// The Swirl came within reach of the cannon's shot (`swirl_in_reach`):
    /// a shot in flight downs it. Returns whether it did, in which case the
    /// Swirl is gone.
    pub fn cannon_meets_swirl(&mut self, swirl_in_reach: bool) -> (downed: bool)
        requires
            old(self).wf(),
        ensures
            final(self).wf(),
            final(self)@ == swirl_shot_view(old(self)@, swirl_in_reach),
            downed == (swirl_in_reach && old(self)@.cannon.firing),
            final(self)@.cannon.charged == old(self)@.cannon.charged,
            final(self)@.cannon.shot_x == old(self)@.cannon.shot_x,
            final(self)@.cannon.shot_y == old(self)@.cannon.shot_y,
            final(self)@.cannon.firing == (old(self)@.cannon.firing && !downed),
            final(self)@.score == old(self)@.score + if downed { 250int } else { 0int },
    {
        proof {
            lemma_live_upto_bounds(self@.cells, SHIELD_CELLS as int);
        }
        if swirl_in_reach && self.zorlon.firing {
            self.zorlon.firing = false;
            self.score = self.score + SWIRL_POINTS;
            true
        } else {
            false
        }
    }

    /// Counts a frame on the Swirl's launch timer. Returns whether the timer
    /// launches the Swirl now.
    pub fn tick_swirl_timer(&mut self) -> (launch: bool)
        requires
            old(self).wf(),
        ensures
            final(self).wf(),
            (final(self)@, launch) == timer_view(old(self)@),
    {
        self.swirl_timer = self.swirl_timer + 1;
        if self.swirl_timer > SWIRL_PERIOD {
            self.swirl_timer = 0;
            true
        } else {
            false
        }
    }

    /// The Swirl touched Yar (`touching`): outside the neutral zone the game
    /// is lost. Returns whether it was.
    pub fn swirl_touches_yar(&mut self, touching: bool) -> (lost: bool)
        requires
            old(self).wf(),
        ensures
            final(self).wf(),
            final(self)@ == swirl_touch_view(old(self)@, touching),
            lost == (touching && !in_neutral_zone(old(self)@.yar_x)),
            lost == (touching && !(NEUTRAL_ZONE_X - YAR_SIZE < old(self)@.yar_x < NEUTRAL_ZONE_X
                + NEUTRAL_ZONE_W)),
            final(self)@.state == if lost { GameState::Lose } else { old(self)@.state },
    {
        if touching && !is_in_neutral_zone(self.yar_x) {
            proof {
                lemma_live_upto_bounds(self@.cells, SHIELD_CELLS as int);
            }
            self.state = GameState::Lose;
            true
        } else {
            false
        }
    }

    /// Whether the Qotile launches the Swirl at once: when the inner column
    /// of the shield is gone and no Swirl (`swirl_active`) is out.
    pub fn qotile_fires_at_once(&self, swirl_active: bool) -> (launch: bool)
        requires
            self.wf(),
        ensures
            launch == (column_clear(self@.cells, 0) && !swirl_active),
            launch ==> !swirl_active && forall|row: int| 0 <= row < 12 ==> #[trigger] self@.cells[2 * row] == 0,
            (exists|row: int| 0 <= row < 12 && #[trigger] self@.cells[2 * row] > 0) ==> !launch,
    {
        let clear = self.shield.is_column_clear(0);
        proof {
            if clear {
                assert forall|row: int| 0 <= row < 12 implies #[trigger] self@.cells[2 * row] == 0 by {
                    assert(self.shield@[2 * row + 0] == 0);
                }
            } else {
                let row = choose|row: int| 0 <= row < 12 && #[trigger] self.shield@[2 * row + 0] > 0;
                assert(self@.cells[2 * row] > 0);
            }
        }
        clear && !swirl_active
    }

    /// Starts a new game when the restart key is `pressed` after the game is
    /// over. Returns whether it did.
    pub fn restart(&mut self, pressed: bool) -> (restarted: bool)
        requires
            old(self).wf(),
        ensures
            final(self).wf(),
            restarted == (pressed && old(self)@.state != GameState::Playing),
            final(self)@ == if restarted {
                initial_view()
            } else {
                old(self)@
            },
    {
        if pressed && self.state != GameState::Playing {
            *self = Game::new();
            true
        } else {
            false
        }
    }

    /// Yar's position.
    pub fn yar_x(&self) -> (x: i32)
        ensures
            x == self@.yar_x,
    {
        self.yar_x
    }

    /// Yar's position.
    pub fn yar_y(&self) -> (y: i32)
        ensures
            y == self@.yar_y,
    {
        self.yar_y
    }

    /// The height of Yar's middle, where its shots and the Swirl aim.
    pub fn yar_center_y(&self) -> (y: i32)
        requires
            self.wf(),
        ensures
            y == self@.yar_y + YAR_SIZE / 2,
    {
        self.yar_y + YAR_SIZE / 2
    }

    /// Whether Yar is inside the neutral zone.
    pub fn yar_in_neutral_zone(&self) -> (r: bool)
        requires
            self.wf(),
        ensures
            r == in_neutral_zone(self@.yar_x),
    {
        is_in_neutral_zone(self.yar_x)
    }

    pub fn score(&self) -> (s: u32)
        ensures
            s == self@.score,
    {
        self.score
    }

    pub fn state(&self) -> (s: GameState)
        ensures
            s == self@.state,
    {
        self.state
    }

    /// The level of the shield cell at `row`, `col`: 2 intact, 1 damaged, 0
    /// gone.
    pub fn shield_cell(&self, row: usize, col: usize) -> (c: u8)
        requires
            self.wf(),
            row < crate::geometry::SHIELD_ROWS,
            col < crate::geometry::SHIELD_COLS,
        ensures
            c == self@.cells[2 * row + col],
    {
        self.shield.cell(row, col)
    }

    pub fn missile(&self) -> (m: Missile)
        ensures
            m == self@.missile,
    {
        self.missile
    }

    pub fn cannon(&self) -> (z: ZorlonCannon)
        ensures
            z == self@.cannon,
    {
        self.zorlon
    }
}

} // verus!
