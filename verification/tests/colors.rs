use tile_render::color::color_of_base;
use tile_render::color::color_of_kind;
use tile_render::color::color_of_s;
use tile_render::color::Color;
use tile_render::connectivity::ConnectorKind;
use tile_render::color::BRIDGE;
use tile_render::color::EMPTY;
use tile_render::connectivity::HEAVY_BIT;
use tile_render::color::MAX_BASE_CODE;
use tile_render::color::NEGATIVE;
use tile_render::color::POSITIVE;
use tile_render::color::RIBBON;
use tile_render::color::RIBBON_BRIDGE;
use tile_render::color::SOLID;
use tile_render::color::THIN_SOLID;

#[test]
fn base_colors_follow_the_table() {
    assert_eq!(color_of_base(0), Color(9, 25, 27));
    assert_eq!(color_of_base(1), Color(255, 255, 255));
    assert_eq!(color_of_base(2), Color(181, 181, 181));
    assert_eq!(color_of_base(3), Color(92, 204, 92));
    assert_eq!(color_of_base(4), Color(214, 87, 41));
    assert_eq!(color_of_base(5), Color(26, 126, 213));
    assert_eq!(color_of_base(6), Color(185, 60, 174));
    assert_eq!(color_of_base(7), Color(108, 30, 217));
}

#[test]
fn kind_colors_follow_the_table() {
    assert_eq!(color_of_kind(ConnectorKind::Heavy), Color(147, 40, 189));
    assert_eq!(color_of_kind(ConnectorKind::Light), Color(216, 135, 248));
}

#[test]
fn color_of_s_goes_by_bit_six() {
    assert_eq!(color_of_s(64), Color(147, 40, 189));
    assert_eq!(color_of_s(64 | 15), Color(147, 40, 189));
    assert_eq!(color_of_s(128), Color(216, 135, 248));
    assert_eq!(color_of_s(128 | 64), Color(147, 40, 189));
    assert_eq!(color_of_s(1), Color(216, 135, 248));
    assert_eq!(color_of_s(0), Color(216, 135, 248));
}

#[test]
fn the_default_color_is_black() {
    assert_eq!(Color::default(), Color(0, 0, 0));
}

#[test]
fn the_named_codes_follow_the_table() {
    assert_eq!(color_of_base(SOLID), Color(9, 25, 27));
    assert_eq!(color_of_base(EMPTY), Color(255, 255, 255));
    assert_eq!(color_of_base(THIN_SOLID), Color(181, 181, 181));
    assert_eq!(color_of_base(POSITIVE), Color(92, 204, 92));
    assert_eq!(color_of_base(NEGATIVE), Color(214, 87, 41));
    assert_eq!(color_of_base(BRIDGE), Color(26, 126, 213));
    assert_eq!(color_of_base(RIBBON), Color(185, 60, 174));
    assert_eq!(color_of_base(RIBBON_BRIDGE), Color(108, 30, 217));
    assert_eq!(RIBBON_BRIDGE, MAX_BASE_CODE);
    assert_eq!(HEAVY_BIT, 1 << 6);
}
