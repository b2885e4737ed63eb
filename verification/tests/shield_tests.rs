use yars_revenge::geometry::{SHIELD_COLS, SHIELD_ROWS};
use yars_revenge::shield::{NibbleResult, Shield};

fn levels(s: &Shield) -> Vec<u8> {
    let mut v = Vec::new();
    for row in 0..SHIELD_ROWS {
        for col in 0..SHIELD_COLS {
            v.push(s.cell(row, col));
        }
    }
    v
}

#[test]
fn new_shield_is_intact() {
    let s = Shield::new();
    assert_eq!(levels(&s), vec![2u8; 24]);
    assert!(!s.is_column_clear(0));
    assert!(!s.is_column_clear(1));
}

#[test]
fn first_bump_bounces_second_eats() {
    let mut s = Shield::new();
    // Yar's body 700..732 x 40..72 reaches 12 px into the top left cell from the left.
    assert_eq!(s.nibble_contact(700, 40, 32, 32), NibbleResult::Hit(-28, 0));
    assert_eq!(s.cell(0, 0), 1);
    assert_eq!(s.nibble_contact(700, 40, 32, 32), NibbleResult::Consumed);
    assert_eq!(s.cell(0, 0), 0);
    // The cell is gone: the same body now touches nothing.
    assert_eq!(s.nibble_contact(700, 40, 32, 32), NibbleResult::Miss);
    let mut expected = vec![2u8; 24];
    expected[0] = 0;
    assert_eq!(levels(&s), expected);
}

#[test]
fn bounce_follows_shallowest_side() {
    // Coming from the right into column 1 of row 3.
    let mut s = Shield::new();
    assert_eq!(s.nibble_contact(748, 180, 32, 32), NibbleResult::Hit(28, 0));
    assert_eq!(s.cell(3, 1), 1);
    // Coming from above into row 0, column 0: overlap of 4 px at the top.
    let mut s = Shield::new();
    assert_eq!(s.nibble_contact(722, 12, 10, 32), NibbleResult::Hit(0, -28));
    assert_eq!(s.cell(0, 0), 1);
    // Coming from below into the bottom row, column 1.
    let mut s = Shield::new();
    assert_eq!(s.nibble_contact(740, 556, 8, 32), NibbleResult::Hit(0, 28));
    assert_eq!(s.cell(11, 1), 1);
}

#[test]
fn touching_edges_is_no_contact() {
    let mut s = Shield::new();
    // Right edge of the body exactly on the shield's left edge.
    assert_eq!(s.nibble_contact(688, 100, 32, 32), NibbleResult::Miss);
    // Body right of the shield.
    assert_eq!(s.nibble_contact(752, 100, 32, 32), NibbleResult::Miss);
    assert_eq!(levels(&s), vec![2u8; 24]);
}

#[test]
fn contact_takes_first_cell_row_by_row() {
    let mut s = Shield::new();
    // A body spanning rows 5 and 6 and both columns nibbles row 5, column 0.
    assert_eq!(s.nibble_contact(719, 290, 40, 20), NibbleResult::Hit(0, 28));
    assert_eq!(s.cell(5, 0), 1);
    assert_eq!(s.cell(5, 1), 2);
    assert_eq!(s.cell(6, 0), 2);
}

#[test]
fn missile_destroys_cell_outright() {
    let mut s = Shield::new();
    assert!(s.nibble_missile(724, 60));
    assert_eq!(s.cell(0, 0), 0);
    assert!(!s.nibble_missile(724, 60));
    assert!(s.nibble_missile(740, 60));
    assert_eq!(s.cell(0, 1), 0);
    assert!(!s.nibble_missile(700, 60));
}

#[test]
fn point_on_shared_edge_hits_first_cell() {
    let mut s = Shield::new();
    // x = 736 is the right edge of column 0 and the left edge of column 1.
    assert!(s.nibble_missile(736, 100));
    assert_eq!(s.cell(1, 0), 0);
    assert_eq!(s.cell(1, 1), 2);
}

#[test]
fn bottom_edge_of_last_row() {
    let mut s = Shield::new();
    // The last row ends a hair above 560.
    assert!(!s.nibble_missile(724, 560));
    assert!(s.nibble_missile(724, 559));
    assert_eq!(s.cell(11, 0), 0);
}

#[test]
fn column_clears_when_every_cell_is_gone() {
    let mut s = Shield::new();
    let centers = [60, 100, 150, 190, 230, 280, 320, 360, 410, 450, 490, 540];
    for (i, y) in centers.iter().enumerate() {
        assert!(!s.is_column_clear(0));
        assert!(s.nibble_missile(724, *y));
        assert_eq!(s.cell(i, 0), 0);
    }
    assert!(s.is_column_clear(0));
    assert!(!s.is_column_clear(1));
}
