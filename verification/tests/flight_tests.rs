use yars_revenge::cannon::ZorlonCannon;
use yars_revenge::missile::Missile;
use yars_revenge::shield::Shield;

#[test]
fn missile_fires_once_until_gone() {
    let mut m = Missile::new();
    assert!(!m.active);
    m.fire(100, 200);
    assert_eq!((m.x, m.y, m.active), (100, 200, true));
    m.fire(300, 400);
    assert_eq!((m.x, m.y, m.active), (100, 200, true));
}

#[test]
fn missile_flies_until_off_screen() {
    let mut s = Shield::new();
    let mut m = Missile::new();
    // Above the shield's top edge.
    m.fire(780, 10);
    m.update(&mut s);
    assert_eq!((m.x, m.active), (788, true));
    m.update(&mut s);
    m.update(&mut s);
    assert_eq!((m.x, m.active), (804, false));
    m.update(&mut s);
    assert_eq!(m.x, 804);
}

#[test]
fn missile_stopped_by_shield() {
    let mut s = Shield::new();
    let mut m = Missile::new();
    m.fire(700, 316);
    m.update(&mut s);
    m.update(&mut s);
    assert!(m.active);
    assert_eq!(m.x, 716);
    m.update(&mut s);
    assert_eq!((m.x, m.active), (724, false));
    assert_eq!(s.cell(6, 0), 0);
    assert_eq!(s.cell(6, 1), 2);
}

#[test]
fn cannon_fires_only_when_charged() {
    let mut z = ZorlonCannon::new();
    z.fire(100);
    assert!(!z.firing);
    z.charge();
    assert!(z.charged);
    z.fire(100);
    assert_eq!((z.shot_x, z.shot_y, z.firing, z.charged), (4, 100, true, false));
    z.charge();
    z.fire(300);
    assert_eq!((z.shot_y, z.firing, z.charged), (100, true, true));
}

#[test]
fn cannon_blocked_by_shield() {
    let mut s = Shield::new();
    let mut z = ZorlonCannon::new();
    z.charge();
    z.fire(316);
    let mut reached = false;
    let mut frames = 0;
    while z.firing {
        reached = reached || z.update(&mut s);
        frames += 1;
    }
    assert!(!reached);
    assert_eq!(frames, 72);
    assert_eq!(z.shot_x, 724);
    assert_eq!(s.cell(6, 0), 0);
    assert_eq!(s.cell(6, 1), 2);
}

#[test]
fn cannon_reaches_qotile_through_clear_path() {
    let mut s = Shield::new();
    assert!(s.nibble_missile(724, 304));
    assert!(s.nibble_missile(744, 304));
    let mut z = ZorlonCannon::new();
    z.charge();
    z.fire(304);
    let mut frames = 0;
    let mut reached = false;
    while z.firing {
        reached = z.update(&mut s);
        frames += 1;
    }
    assert!(reached);
    assert_eq!(frames, 76);
    assert_eq!(z.shot_x, 764);
    assert_eq!(s.cell(5, 0), 2);
    assert_eq!(s.cell(7, 1), 2);
}

#[test]
fn shot_above_shield_misses_qotile() {
    let mut s = Shield::new();
    let mut z = ZorlonCannon { shot_x: 4, shot_y: 20, firing: true, charged: false };
    let mut frames = 0;
    while z.firing {
        assert!(!z.update(&mut s));
        frames += 1;
    }
    assert_eq!(frames, 80);
    assert_eq!(z.shot_x, 804);
    for row in 0..12 {
        assert_eq!(s.cell(row, 0), 2);
        assert_eq!(s.cell(row, 1), 2);
    }
}

#[test]
fn clear_row_away_from_qotile_height_misses() {
    let mut s = Shield::new();
    assert!(s.nibble_missile(724, 316));
    assert!(s.nibble_missile(744, 316));
    let mut z = ZorlonCannon::new();
    z.charge();
    z.fire(316);
    let mut frames = 0;
    while z.firing {
        assert!(!z.update(&mut s));
        frames += 1;
    }
    assert_eq!(frames, 80);
    assert_eq!(z.shot_x, 804);
}

#[test]
fn qotile_height_edges() {
    assert!(!yars_revenge::cannon::meets_qotile_height(285));
    assert!(yars_revenge::cannon::meets_qotile_height(286));
    assert!(yars_revenge::cannon::meets_qotile_height(314));
    assert!(!yars_revenge::cannon::meets_qotile_height(315));
}

#[test]
fn shot_cannot_skip_a_cell() {
    // From an odd start the shot still meets column 0 ...
    let mut s = Shield::new();
    let mut z = ZorlonCannon { shot_x: 715, shot_y: 100, firing: true, charged: false };
    assert!(!z.update(&mut s));
    assert!(!z.firing);
    assert_eq!(z.shot_x, 725);
    assert_eq!(s.cell(1, 0), 0);
    assert_eq!(s.cell(1, 1), 2);
    // ... and with column 0 gone at that height, column 1.
    let mut z = ZorlonCannon { shot_x: 715, shot_y: 100, firing: true, charged: false };
    let mut reached = false;
    while z.firing {
        reached = reached || z.update(&mut s);
    }
    assert!(!reached);
    assert_eq!(z.shot_x, 745);
    assert_eq!(s.cell(1, 1), 0);
}

#[test]
fn cannon_half_cleared_path_still_blocked() {
    let mut s = Shield::new();
    assert!(s.nibble_missile(724, 316));
    let mut z = ZorlonCannon::new();
    z.charge();
    z.fire(316);
    let mut reached = false;
    while z.firing {
        reached = reached || z.update(&mut s);
    }
    assert!(!reached);
    assert_eq!(z.shot_x, 744);
    assert_eq!(s.cell(6, 1), 0);
}
