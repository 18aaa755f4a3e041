use tile_render::border::border_rule;
use tile_render::border::color_at;
use tile_render::border::resolve_color;
use tile_render::grid::Neighbors;
use tile_render::color::Color;

const NONE: Neighbors = Neighbors { up: 0, right: 0, down: 0, left: 0 };
const HEAVY: Color = Color(147, 40, 189);
const LIGHT: Color = Color(216, 135, 248);
const BORDER: Color = Color(9, 25, 27);

fn all_open() -> Neighbors {
    Neighbors { up: 79, right: 79, down: 79, left: 79 }
}

#[test]
fn a_cell_without_connectivity_has_no_border() {
    for py in 0..6 {
        for px in 0..6 {
            assert!(!border_rule(px, py, 6, 2, 0, &NONE));
            assert_eq!(color_at(4, 0, &NONE, px, py, 6, 2), Color(214, 87, 41));
        }
    }
}

#[test]
fn resolve_color_prefers_the_connector_kind() {
    assert_eq!(resolve_color(3, 0), Color(92, 204, 92));
    assert_eq!(resolve_color(3, 64), HEAVY);
    assert_eq!(resolve_color(3, 128), LIGHT);
    assert_eq!(resolve_color(200, 1), LIGHT);
}

#[test]
fn a_closed_connector_is_framed() {
    let expected = [
        [true, true, true, true, true],
        [true, false, false, false, true],
        [true, false, false, false, true],
        [true, false, false, false, true],
        [true, true, true, true, true],
    ];
    for py in 0..5 {
        for px in 0..5 {
            assert_eq!(border_rule(px, py, 5, 1, 64, &NONE), expected[py][px]);
            let color = if expected[py][px] { BORDER } else { HEAVY };
            assert_eq!(color_at(1, 64, &NONE, px, py, 5, 1), color);
        }
    }
}

#[test]
fn each_open_bit_frees_the_middle_of_one_band() {
    // cell_width 4, border 1: bands are row 0, row 3, column 0, column 3.
    let around = all_open();
    // open up only: the top band is free between the two side bands
    assert!(!border_rule(1, 0, 4, 1, 64 | 1, &around));
    assert!(border_rule(0, 0, 4, 1, 64 | 1, &around));
    assert!(border_rule(3, 0, 4, 1, 64 | 1, &around));
    assert!(border_rule(1, 3, 4, 1, 64 | 1, &around));
    // open right only
    assert!(!border_rule(3, 1, 4, 1, 64 | 2, &around));
    assert!(border_rule(3, 0, 4, 1, 64 | 2, &around));
    assert!(border_rule(0, 1, 4, 1, 64 | 2, &around));
    // open down only
    assert!(!border_rule(2, 3, 4, 1, 64 | 4, &around));
    assert!(border_rule(2, 0, 4, 1, 64 | 4, &around));
    assert!(border_rule(0, 3, 4, 1, 64 | 4, &around));
    // open left only
    assert!(!border_rule(0, 2, 4, 1, 64 | 8, &around));
    assert!(border_rule(3, 2, 4, 1, 64 | 8, &around));
    assert!(border_rule(0, 0, 4, 1, 64 | 8, &around));
}

#[test]
fn the_band_thresholds_are_border_and_width_minus_border() {
    // cell_width 7, border 2: low band is 0..2, high band is 5..7
    let own = 128;
    assert!(border_rule(3, 1, 7, 2, own, &NONE));
    assert!(!border_rule(3, 2, 7, 2, own, &NONE));
    assert!(!border_rule(3, 4, 7, 2, own, &NONE));
    assert!(border_rule(3, 5, 7, 2, own, &NONE));
    assert!(border_rule(1, 3, 7, 2, own, &NONE));
    assert!(!border_rule(2, 3, 7, 2, own, &NONE));
    assert!(!border_rule(4, 3, 7, 2, own, &NONE));
    assert!(border_rule(5, 3, 7, 2, own, &NONE));
}

#[test]
fn an_open_cell_among_open_neighbours_has_no_border() {
    for py in 0..4 {
        for px in 0..4 {
            assert!(!border_rule(px, py, 4, 1, 79, &all_open()));
            assert_eq!(color_at(1, 79, &all_open(), px, py, 4, 1), HEAVY);
        }
    }
}

#[test]
fn an_open_cell_among_closed_neighbours_has_border_corners() {
    let expected = [
        [true, false, false, true],
        [false, false, false, false],
        [false, false, false, false],
        [true, false, false, true],
    ];
    for py in 0..4 {
        for px in 0..4 {
            assert_eq!(border_rule(px, py, 4, 1, 128 | 15, &NONE), expected[py][px]);
            let color = if expected[py][px] { BORDER } else { LIGHT };
            assert_eq!(color_at(1, 128 | 15, &NONE, px, py, 4, 1), color);
        }
    }
}

#[test]
fn the_top_left_corner_asks_up_for_left_and_left_for_up() {
    let own = 64 | 15;
    assert!(border_rule(0, 0, 4, 1, own, &NONE));
    assert!(!border_rule(0, 0, 4, 1, own, &Neighbors { up: 8, ..NONE }));
    assert!(!border_rule(0, 0, 4, 1, own, &Neighbors { left: 1, ..NONE }));
    assert!(border_rule(0, 0, 4, 1, own, &Neighbors { up: 7, left: 14, right: 15, down: 15 }));
}

#[test]
fn the_top_right_corner_asks_up_for_right_and_right_for_up() {
    let own = 64 | 15;
    assert!(border_rule(3, 0, 4, 1, own, &NONE));
    assert!(!border_rule(3, 0, 4, 1, own, &Neighbors { up: 2, ..NONE }));
    assert!(!border_rule(3, 0, 4, 1, own, &Neighbors { right: 1, ..NONE }));
    assert!(border_rule(3, 0, 4, 1, own, &Neighbors { up: 13, right: 14, left: 15, down: 15 }));
}

#[test]
fn the_bottom_left_corner_asks_down_for_left_and_left_for_down() {
    let own = 64 | 15;
    assert!(border_rule(0, 3, 4, 1, own, &NONE));
    assert!(!border_rule(0, 3, 4, 1, own, &Neighbors { down: 8, ..NONE }));
    assert!(!border_rule(0, 3, 4, 1, own, &Neighbors { left: 4, ..NONE }));
    assert!(border_rule(0, 3, 4, 1, own, &Neighbors { down: 7, left: 11, up: 15, right: 15 }));
}

#[test]
fn the_bottom_right_corner_asks_down_for_right_and_right_for_down() {
    let own = 64 | 15;
    assert!(border_rule(3, 3, 4, 1, own, &NONE));
    assert!(!border_rule(3, 3, 4, 1, own, &Neighbors { down: 2, ..NONE }));
    assert!(!border_rule(3, 3, 4, 1, own, &Neighbors { right: 4, ..NONE }));
    assert!(border_rule(3, 3, 4, 1, own, &Neighbors { down: 13, right: 11, up: 15, left: 15 }));
}

#[test]
fn a_border_of_zero_paints_no_border() {
    for py in 0..3 {
        for px in 0..3 {
            assert!(!border_rule(px, py, 3, 0, 64, &NONE));
        }
    }
}

#[test]
fn a_border_as_wide_as_the_tile_covers_it() {
    for py in 0..3 {
        for px in 0..3 {
            assert!(border_rule(px, py, 3, 3, 64, &NONE));
            assert!(border_rule(px, py, 3, 3, 64 | 15, &NONE));
            assert!(!border_rule(px, py, 3, 3, 64 | 15, &all_open()));
        }
    }
}

#[test]
fn bands_that_overlap_are_both_in_force() {
    // cell_width 4, border 3: low band is 0..3, high band is 1..4
    let own = 64 | 1 | 8;
    // open up and left, closed down and right: only (0, 0) is in neither
    // closed band, and it is a corner
    assert!(border_rule(0, 0, 4, 3, own, &NONE));
    assert!(!border_rule(0, 0, 4, 3, own, &Neighbors { up: 8, ..NONE }));
    assert!(border_rule(1, 0, 4, 3, own, &all_open()));
    assert!(border_rule(0, 1, 4, 3, own, &all_open()));
}
