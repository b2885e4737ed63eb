use yars_revenge::game::{clamp_i32, is_in_neutral_zone, move_yar, FrameInput, Game, GameState};

fn keys(up: bool, down: bool, left: bool, right: bool, fire: bool) -> FrameInput {
    FrameInput { up, down, left, right, fire }
}

fn idle() -> FrameInput {
    keys(false, false, false, false, false)
}

fn right() -> FrameInput {
    keys(false, false, false, true, false)
}

#[test]
fn new_game_state() {
    let g = Game::new();
    assert_eq!((g.yar_x(), g.yar_y()), (60, 300));
    assert_eq!(g.yar_center_y(), 316);
    assert_eq!(g.score(), 0);
    assert_eq!(g.state(), GameState::Playing);
    for row in 0..12 {
        for col in 0..2 {
            assert_eq!(g.shield_cell(row, col), 2);
        }
    }
    assert!(!g.missile().active);
    assert!(!g.cannon().firing && !g.cannon().charged);
}

#[test]
fn yar_wraps_top_and_bottom_and_stops_at_sides() {
    assert_eq!(move_yar(100, 0, keys(true, false, false, false, false)), (100, 568));
    assert_eq!(move_yar(100, 568, keys(false, true, false, false, false)), (100, 0));
    assert_eq!(move_yar(100, 564, keys(false, true, false, false, false)), (100, 568));
    assert_eq!(move_yar(0, 100, keys(false, false, true, false, false)), (0, 100));
    assert_eq!(move_yar(768, 100, keys(false, false, false, true, false)), (768, 100));
    assert_eq!(move_yar(2, 100, keys(false, false, true, false, false)), (0, 100));
    assert_eq!(move_yar(100, 100, keys(true, true, true, true, false)), (100, 100));
    assert_eq!(move_yar(100, 100, keys(false, true, false, true, false)), (104, 104));
}

#[test]
fn clamp_bounds() {
    assert_eq!(clamp_i32(-5, 0, 10), 0);
    assert_eq!(clamp_i32(15, 0, 10), 10);
    assert_eq!(clamp_i32(7, 0, 10), 7);
}

#[test]
fn neutral_zone_edges() {
    assert!(!is_in_neutral_zone(218));
    assert!(is_in_neutral_zone(219));
    assert!(is_in_neutral_zone(399));
    assert!(!is_in_neutral_zone(400));
}

#[test]
fn bump_bounce_then_eat_charges_cannon() {
    let mut g = Game::new();
    for _ in 0..157 {
        assert!(g.begin_frame(right()));
    }
    assert_eq!(g.yar_x(), 688);
    assert_eq!(g.shield_cell(6, 0), 2);
    // The next step overlaps the cell by 4 px from the left: pushed back.
    g.begin_frame(right());
    assert_eq!((g.yar_x(), g.yar_y()), (664, 300));
    assert_eq!(g.shield_cell(6, 0), 1);
    assert_eq!(g.score(), 0);
    for _ in 0..6 {
        g.begin_frame(right());
    }
    assert_eq!(g.yar_x(), 688);
    // Second bump eats the damaged cell.
    g.begin_frame(right());
    assert_eq!(g.yar_x(), 692);
    assert_eq!(g.shield_cell(6, 0), 0);
    assert_eq!(g.score(), 10);
    assert!(g.cannon().charged);
    // Fire: the charged cannon fires instead of the missile.
    g.begin_frame(keys(false, false, false, false, true));
    let z = g.cannon();
    assert_eq!((z.shot_x, z.shot_y, z.firing, z.charged), (14, 316, true, false));
    assert!(!g.missile().active);
    // The shot flies on and is stopped by the cell in column 1.
    let mut frames = 1;
    while g.cannon().firing {
        g.begin_frame(idle());
        frames += 1;
    }
    assert_eq!(frames, 74);
    assert_eq!(g.cannon().shot_x, 744);
    assert_eq!(g.shield_cell(6, 1), 0);
    assert_eq!(g.state(), GameState::Playing);
}

#[test]
fn fire_launches_missile_when_not_charged() {
    let mut g = Game::new();
    g.begin_frame(keys(false, false, false, false, true));
    let m = g.missile();
    assert_eq!((m.x, m.y, m.active), (100, 316, true));
    // The missile flies 8 px a frame and is stopped by the shield at x = 724.
    let mut frames = 1;
    while g.missile().active {
        g.begin_frame(idle());
        frames += 1;
    }
    assert_eq!(frames, 79);
    assert_eq!(g.missile().x, 724);
    assert_eq!(g.shield_cell(6, 0), 0);
    assert_eq!(g.score(), 0);
}

fn up() -> FrameInput {
    keys(true, false, false, false, false)
}

fn down() -> FrameInput {
    keys(false, true, false, false, false)
}

fn fire() -> FrameInput {
    keys(false, false, false, false, true)
}

// Clears row 6 with two missiles from Yar's current height, then charges the
// cannon by eating column 0 of row 5 from y = 268 and comes back.
fn clear_row_six_and_charge(g: &mut Game) {
    let home = g.yar_y();
    g.begin_frame(fire());
    while g.missile().active {
        g.begin_frame(idle());
    }
    g.begin_frame(fire());
    while g.missile().active {
        g.begin_frame(idle());
    }
    assert_eq!(g.shield_cell(6, 0), 0);
    assert_eq!(g.shield_cell(6, 1), 0);
    while g.yar_y() > 268 {
        g.begin_frame(up());
    }
    while g.score() == 0 {
        g.begin_frame(right());
    }
    assert_eq!(g.score(), 10);
    assert_eq!(g.shield_cell(5, 0), 0);
    assert!(g.cannon().charged);
    while g.yar_y() < home {
        g.begin_frame(down());
    }
}

#[test]
fn cannon_through_cleared_row_wins() {
    let mut g = Game::new();
    for _ in 0..3 {
        g.begin_frame(up());
    }
    assert_eq!(g.yar_center_y(), 304);
    clear_row_six_and_charge(&mut g);
    assert_eq!(g.yar_center_y(), 304);
    g.begin_frame(fire());
    while g.state() == GameState::Playing {
        g.begin_frame(idle());
    }
    assert_eq!(g.state(), GameState::Win);
    assert_eq!(g.score(), 1010);
    // A game that is over does not move.
    assert!(!g.begin_frame(right()));
    assert_eq!(g.score(), 1010);
    assert!(!g.restart(false));
    assert_eq!(g.state(), GameState::Win);
    assert!(g.restart(true));
    assert_eq!(g.state(), GameState::Playing);
    assert_eq!(g.score(), 0);
    assert_eq!((g.yar_x(), g.yar_y()), (60, 300));
}

#[test]
fn cannon_off_qotile_height_does_not_win() {
    let mut g = Game::new();
    assert_eq!(g.yar_center_y(), 316);
    clear_row_six_and_charge(&mut g);
    assert_eq!(g.yar_center_y(), 316);
    g.begin_frame(fire());
    assert!(g.cannon().firing);
    while g.cannon().firing {
        g.begin_frame(idle());
    }
    assert_eq!(g.cannon().shot_x, 804);
    assert_eq!(g.state(), GameState::Playing);
    assert_eq!(g.score(), 10);
}

#[test]
fn swirl_timer_launches_after_period() {
    let mut g = Game::new();
    for _ in 0..180 {
        assert!(!g.tick_swirl_timer());
    }
    assert!(g.tick_swirl_timer());
    for _ in 0..180 {
        assert!(!g.tick_swirl_timer());
    }
    assert!(g.tick_swirl_timer());
}

#[test]
fn swirl_harmless_in_neutral_zone() {
    let mut g = Game::new();
    assert!(!g.swirl_touches_yar(false));
    assert_eq!(g.state(), GameState::Playing);
    // Walk Yar into the neutral zone.
    while !g.yar_in_neutral_zone() {
        g.begin_frame(right());
    }
    assert_eq!(g.yar_x(), 220);
    assert!(!g.swirl_touches_yar(true));
    assert_eq!(g.state(), GameState::Playing);
}

#[test]
fn swirl_kills_outside_neutral_zone() {
    let mut g = Game::new();
    assert!(g.swirl_touches_yar(true));
    assert_eq!(g.state(), GameState::Lose);
    assert!(!g.begin_frame(right()));
    assert_eq!(g.yar_x(), 60);
}

#[test]
fn cannon_shot_downs_swirl() {
    let mut g = Game::new();
    // No shot in flight: the Swirl is not hit.
    assert!(!g.cannon_meets_swirl(true));
    assert_eq!(g.score(), 0);
    // Charge the cannon by eating a cell, then fire.
    while g.score() == 0 {
        g.begin_frame(right());
    }
    g.begin_frame(keys(false, false, false, false, true));
    assert!(g.cannon().firing);
    assert!(!g.cannon_meets_swirl(false));
    assert!(g.cannon_meets_swirl(true));
    assert!(!g.cannon().firing);
    assert_eq!(g.score(), 260);
}

#[test]
fn qotile_fires_when_inner_column_gone() {
    let mut g = Game::new();
    assert!(!g.qotile_fires_at_once(false));
    // Clear column 0 with missiles fired from every row.
    for row in 0..12 {
        let target = [44, 88, 132, 176, 216, 260, 304, 348, 392, 436, 476, 520][row];
        while g.yar_center_y() != target {
            let down = g.yar_center_y() < target;
            g.begin_frame(keys(!down, down, false, false, false));
        }
        g.begin_frame(keys(false, false, false, false, true));
        while g.missile().active {
            g.begin_frame(idle());
        }
        assert_eq!(g.shield_cell(row, 0), 0);
    }
    assert!(g.qotile_fires_at_once(false));
    assert!(!g.qotile_fires_at_once(true));
}
