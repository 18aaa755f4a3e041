//! The border rule: which pixels of a tile take the border colour.
//!
//! A tile is `cell_width` pixels on each side, and a band of `border` pixels
//! runs along each of its four edges. A connector cell paints a band in the
//! border colour unless it is open on that side. Where two bands cross, in a
//! corner, the pixel is also painted in the border colour when neither of the
//! two neighbours that meet there reaches into the corner.

use vstd::prelude::*;
use crate::color::Color;
use crate::color::MAX_BASE_CODE;
use crate::color::base_color;
use crate::color::border_color;
use crate::color::color_of_base;
use crate::color::color_of_s;
use crate::color::kind_color;
use crate::color::SOLID;
use crate::connectivity::decode;
use crate::connectivity::is_connector;
use crate::connectivity::kind_of;
use crate::connectivity::opens_down;
use crate::connectivity::opens_left;
use crate::connectivity::opens_right;
use crate::connectivity::opens_up;
use crate::grid::Neighbors;

verus! {

/// Whether offset `p` lies in the band along the low edge (top or left).
pub open spec fn in_low_band(p: int, border: int) -> bool {
    p < border
}

/// Whether offset `p` lies in the band along the high edge (bottom or right).
pub open spec fn in_high_band(p: int, cell_width: int, border: int) -> bool {
    p >= cell_width - border
}

/// Whether the pixel lies in a band along an edge on which the cell itself is
/// closed.
pub open spec fn on_closed_edge(px: int, py: int, cell_width: int, border: int, own: u8) -> bool {
    ||| in_low_band(py, border) && !opens_up(own)
    ||| in_high_band(py, cell_width, border) && !opens_down(own)
    ||| in_low_band(px, border) && !opens_left(own)
    ||| in_high_band(px, cell_width, border) && !opens_right(own)
}

/// Whether the pixel lies in a corner into which neither adjoining neighbour
/// opens: the neighbour above or below does not open sideways toward it, and
/// the neighbour on the left or right does not open up or down toward it.
pub open spec fn on_closed_corner(
    px: int,
    py: int,
    cell_width: int,
    border: int,
    around: Neighbors,
) -> bool {
    ||| in_low_band(px, border) && in_low_band(py, border) && !opens_left(around.up) && !opens_up(
        around.left,
    )
    ||| in_high_band(px, cell_width, border) && in_low_band(py, border) && !opens_right(around.up)
        && !opens_up(around.right)
    ||| in_low_band(px, border) && in_high_band(py, cell_width, border) && !opens_left(around.down)
        && !opens_down(around.left)
    ||| in_high_band(px, cell_width, border) && in_high_band(py, cell_width, border)
        && !opens_right(around.down) && !opens_down(around.right)
}

/// Whether the pixel at offset `(px, py)` of a tile is painted in the border
/// colour. A cell without connectivity never has a border.
pub open spec fn is_border(
    px: int,
    py: int,
    cell_width: int,
    border: int,
    own: u8,
    around: Neighbors,
) -> bool {
    is_connector(own) && (on_closed_edge(px, py, cell_width, border, own) || on_closed_corner(
        px,
        py,
        cell_width,
        border,
        around,
    ))
}

/// The colour of a cell away from its borders: the colour of its base code if
/// it has no connectivity, else the colour of its connector kind.
pub open spec fn resolved_color(base: u8, own: u8) -> Color {
    if is_connector(own) {
        kind_color(kind_of(own))
    } else {
        base_color(base)
    }
}

/// The colour of the pixel at offset `(px, py)` of the tile of a cell with
/// base code `base` and connectivity `own`, among the given neighbours.
pub open spec fn pixel_color(
    base: u8,
    own: u8,
    around: Neighbors,
    px: int,
    py: int,
    cell_width: int,
    border: int,
) -> Color {
    if is_border(px, py, cell_width, border, own, around) {
        border_color()
    } else {
        resolved_color(base, own)
    }
}

/// Decides whether the pixel at offset `(px, py)` of a tile is a border pixel.
pub fn border_rule(
    px: usize,
    py: usize,
    cell_width: usize,
    border: usize,
    own: u8,
    around: &Neighbors,
) -> (b: bool)
    requires
        border <= cell_width,
    ensures
        b == is_border(px as int, py as int, cell_width as int, border as int, own, *around),
{
    if own == 0 {
        return false;
    }
    let b0: usize = border;
    let b1: usize = cell_width - border;
    let me = decode(own);
    let up = decode(around.up);
    let right = decode(around.right);
    let down = decode(around.down);
    let left = decode(around.left);
    let top = py < b0;
    let bottom = py >= b1;
    let west = px < b0;
    let east = px >= b1;
    let closed_edge = (top && !me.open_up) || (bottom && !me.open_down) || (west && !me.open_left)
        || (east && !me.open_right);
    let top_left = west && top && !up.open_left && !left.open_up;
    let top_right = east && top && !up.open_right && !right.open_up;
    let bottom_left = west && bottom && !down.open_left && !left.open_down;
    let bottom_right = east && bottom && !down.open_right && !right.open_down;
    closed_edge || top_left || top_right || bottom_left || bottom_right
}

/// Resolves the colour that a cell shows away from its borders.
pub fn resolve_color(base: u8, own: u8) -> (c: Color)
    requires
        !is_connector(own) ==> base <= MAX_BASE_CODE,
    ensures
        c == resolved_color(base, own),
{
    if own != 0 {
        color_of_s(own)
    } else {
        color_of_base(base)
    }
}

/// Computes the colour of one pixel of a tile.
pub fn color_at(
    base: u8,
    own: u8,
    around: &Neighbors,
    px: usize,
    py: usize,
    cell_width: usize,
    border: usize,
) -> (c: Color)
    requires
        border <= cell_width,
        !is_connector(own) ==> base <= MAX_BASE_CODE,
    ensures
        c == pixel_color(
            base,
            own,
            *around,
            px as int,
            py as int,
            cell_width as int,
            border as int,
        ),
{
    if border_rule(px, py, cell_width, border, own, around) {
        color_of_base(SOLID)
    } else {
        resolve_color(base, own)
    }
}

} // verus!
