//! What holds of every rendered image.
//!
//! The statements here are about `rendered`, the image that `render` returns
//! for a grid that can be rendered, and about `render_result`, the relation
//! between the arguments of `render` and what it returns.

use vstd::prelude::*;
use vstd::arithmetic::div_mod::lemma_fundamental_div_mod_converse;
use crate::border::in_high_band;
use crate::border::in_low_band;
use crate::border::is_border;
use crate::border::on_closed_edge;
use crate::color::Color;
use crate::color::EMPTY;
use crate::color::background_color;
use crate::color::base_color;
use crate::color::border_color;
use crate::color::kind_color;
use crate::compositor::RenderError;
use crate::compositor::image_height;
use crate::compositor::image_pixel;
use crate::compositor::image_width;
use crate::compositor::render_result;
use crate::compositor::rendered;
use crate::compositor::rendered_pixels;
use crate::compositor::tile_pixel;
use crate::connectivity::is_connector;
use crate::connectivity::kind_of;
use crate::connectivity::opens_down;
use crate::connectivity::opens_left;
use crate::connectivity::opens_right;
use crate::connectivity::opens_up;
use crate::grid::GridModel;
use crate::image::ImageModel;

verus! {

/// Whether a connectivity byte declares its cell open on all four sides.
pub open spec fn opens_all(byte: u8) -> bool {
    opens_up(byte) && opens_right(byte) && opens_down(byte) && opens_left(byte)
}

/// Whether a connectivity byte declares its cell open on no side.
pub open spec fn opens_none(byte: u8) -> bool {
    !opens_up(byte) && !opens_right(byte) && !opens_down(byte) && !opens_left(byte)
}

/// Whether `(x, y)` names a tile of the image of a grid: a cell of the grid
/// or a place in the ring of empty tiles around it.
pub open spec fn has_tile(m: GridModel, x: int, y: int) -> bool {
    -1 <= x <= m.width && -1 <= y <= m.height
}

/// The pixel of the image at offset `(px, py)` of the tile at `(x, y)`.
pub open spec fn rendered_tile_pixel(
    m: GridModel,
    cell_width: int,
    border: int,
    x: int,
    y: int,
    px: int,
    py: int,
) -> Color {
    rendered(m, cell_width, border).pixel((x + 1) * cell_width + px, (y + 1) * cell_width + py)
}

/// The image holds three bytes for each pixel, and the pixel in column `ix`
/// of row `iy` has the colour that `image_pixel` gives.
pub proof fn lemma_rendered_pixel(m: GridModel, cell_width: int, border: int, ix: int, iy: int)
    requires
        0 < cell_width,
        0 <= ix < image_width(m, cell_width),
        0 <= iy < image_height(m, cell_width),
    ensures
        rendered(m, cell_width, border).wf(),
        rendered(m, cell_width, border).pixel(ix, iy) == image_pixel(m, cell_width, border, ix, iy),
{
    let w = image_width(m, cell_width);
    let h = image_height(m, cell_width);
    let k = iy * w + ix;
    assert(0 <= k < w * h && 0 <= w * h) by (nonlinear_arith)
        requires
            0 <= ix < w,
            0 <= iy < h,
            k == iy * w + ix,
    ;
    lemma_fundamental_div_mod_converse(k, w, iy, ix);
    let image = rendered(m, cell_width, border);
    let pixels = rendered_pixels(m, cell_width, border);
    assert(pixels.len() == w * h);
    assert(pixels[k] == image_pixel(m, cell_width, border, ix, iy));
    assert(image.data[3 * k] == pixels[k].0);
    assert(image.data[3 * k + 1] == pixels[k].1);
    assert(image.data[3 * k + 2] == pixels[k].2);
}

/// The tile of the cell `(x, y)` starts at pixel `((x + 1) * cell_width,
/// (y + 1) * cell_width)`, and its pixel at offset `(px, py)` has the colour
/// that the border rule gives for the cell and its neighbours.
pub proof fn lemma_rendered_tile(
    m: GridModel,
    cell_width: int,
    border: int,
    x: int,
    y: int,
    px: int,
    py: int,
)
    requires
        0 < cell_width,
        has_tile(m, x, y),
        0 <= px < cell_width,
        0 <= py < cell_width,
    ensures
        rendered_tile_pixel(m, cell_width, border, x, y, px, py) == tile_pixel(
            m,
            cell_width,
            border,
            x,
            y,
            px,
            py,
        ),
{
    let ix = (x + 1) * cell_width + px;
    let iy = (y + 1) * cell_width + py;
    assert(0 <= ix < (m.width + 2) * cell_width) by (nonlinear_arith)
        requires
            0 < cell_width,
            0 <= x + 1 < m.width + 2,
            0 <= px < cell_width,
            ix == (x + 1) * cell_width + px,
    ;
    assert(0 <= iy < (m.height + 2) * cell_width) by (nonlinear_arith)
        requires
            0 < cell_width,
            0 <= y + 1 < m.height + 2,
            0 <= py < cell_width,
            iy == (y + 1) * cell_width + py,
    ;
    lemma_rendered_pixel(m, cell_width, border, ix, iy);
    lemma_fundamental_div_mod_converse(ix, cell_width, x + 1, px);
    lemma_fundamental_div_mod_converse(iy, cell_width, y + 1, py);
}

/// A cell without connectivity never gets a border: every pixel of its tile
/// has the colour of its base code.
pub proof fn lemma_plain_cell_is_uniform(
    m: GridModel,
    cell_width: int,
    border: int,
    x: int,
    y: int,
    px: int,
    py: int,
)
    requires
        0 < cell_width,
        m.contains(x, y),
        !is_connector(m.connectivity(x, y)),
        0 <= px < cell_width,
        0 <= py < cell_width,
    ensures
        rendered_tile_pixel(m, cell_width, border, x, y, px, py) == base_color(m.base(x, y)),
{
    lemma_rendered_tile(m, cell_width, border, x, y, px, py);
}

/// Every coordinate outside the grid reads as an empty cell without
/// connectivity.
pub proof fn lemma_outside_reads_empty(m: GridModel, x: int, y: int)
    requires
        !m.contains(x, y),
    ensures
        m.cell(x, y) == (EMPTY, 0u8),
{
}

/// The tile of an empty cell without connectivity is painted in the
/// background colour throughout, be it a cell of the grid or a place in the
/// ring around it.
pub proof fn lemma_empty_tile_is_background(
    m: GridModel,
    cell_width: int,
    border: int,
    x: int,
    y: int,
    px: int,
    py: int,
)
    requires
        0 < cell_width,
        has_tile(m, x, y),
        m.cell(x, y) == (EMPTY, 0u8),
        0 <= px < cell_width,
        0 <= py < cell_width,
    ensures
        rendered_tile_pixel(m, cell_width, border, x, y, px, py) == background_color(),
{
    lemma_rendered_tile(m, cell_width, border, x, y, px, py);
}

/// At most one cell is the first malformed cell of a grid.
pub proof fn lemma_first_malformed_is_unique(m: GridModel, x1: int, y1: int, x2: int, y2: int)
    requires
        m.first_malformed(x1, y1),
        m.first_malformed(x2, y2),
    ensures
        x1 == x2,
        y1 == y2,
{
    assert(m.malformed(x1, y1));
    assert(m.malformed(x2, y2));
}

/// Rendering is a function of its arguments: whatever `render` may return
/// for a grid, a tile size and a border, it returns the same each time.
pub proof fn lemma_render_is_deterministic(
    m: GridModel,
    cell_width: int,
    border: int,
    first: Result<ImageModel, RenderError>,
    second: Result<ImageModel, RenderError>,
)
    requires
        render_result(m, cell_width, border, first),
        render_result(m, cell_width, border, second),
    ensures
        first == second,
{
    match (first, second) {
        (
            Err(RenderError::MalformedCell { x: x1, y: y1 }),
            Err(RenderError::MalformedCell { x: x2, y: y2 }),
        ) => {
            lemma_first_malformed_is_unique(m, x1 as int, y1 as int, x2 as int, y2 as int);
        },
        (Ok(_), Err(RenderError::MalformedCell { x, y })) => {
            assert(m.malformed(x as int, y as int));
        },
        (Err(RenderError::MalformedCell { x, y }), Ok(_)) => {
            assert(m.malformed(x as int, y as int));
        },
        _ => {},
    }
}

/// A connector cell that is open on all four sides, among neighbours that
/// are open on all four sides too, has no border pixel anywhere in its tile:
/// every pixel has the colour of the connector's kind.
pub proof fn lemma_open_cell_has_no_border(
    m: GridModel,
    cell_width: int,
    border: int,
    x: int,
    y: int,
    px: int,
    py: int,
)
    requires
        0 < cell_width,
        m.contains(x, y),
        opens_all(m.connectivity(x, y)),
        opens_all(m.around(x, y).up),
        opens_all(m.around(x, y).right),
        opens_all(m.around(x, y).down),
        opens_all(m.around(x, y).left),
        0 <= px < cell_width,
        0 <= py < cell_width,
    ensures
        is_connector(m.connectivity(x, y)),
        !is_border(px, py, cell_width, border, m.connectivity(x, y), m.around(x, y)),
        rendered_tile_pixel(m, cell_width, border, x, y, px, py) == kind_color(
            kind_of(m.connectivity(x, y)),
        ),
{
    let own = m.connectivity(x, y);
    assert(own & 1 != 0 ==> own != 0) by (bit_vector);
    lemma_rendered_tile(m, cell_width, border, x, y, px, py);
}

/// A connector cell that is open on no side, among neighbours without
/// connectivity, has the border colour on every pixel of its four bands, the
/// corners included, and the colour of its kind on every other pixel.
pub proof fn lemma_closed_cell_is_framed(
    m: GridModel,
    cell_width: int,
    border: int,
    x: int,
    y: int,
    px: int,
    py: int,
)
    requires
        0 < cell_width,
        m.contains(x, y),
        is_connector(m.connectivity(x, y)),
        opens_none(m.connectivity(x, y)),
        !is_connector(m.around(x, y).up),
        !is_connector(m.around(x, y).right),
        !is_connector(m.around(x, y).down),
        !is_connector(m.around(x, y).left),
        0 <= px < cell_width,
        0 <= py < cell_width,
    ensures
        rendered_tile_pixel(m, cell_width, border, x, y, px, py) == (if in_low_band(px, border)
            || in_high_band(px, cell_width, border) || in_low_band(py, border) || in_high_band(
            py,
            cell_width,
            border,
        ) {
            border_color()
        } else {
            kind_color(kind_of(m.connectivity(x, y)))
        }),
{
    lemma_rendered_tile(m, cell_width, border, x, y, px, py);
}

/// On a side on which a connector cell is closed, every pixel of the band
/// along that side has the border colour.
pub proof fn lemma_closed_side_is_border(
    m: GridModel,
    cell_width: int,
    border: int,
    x: int,
    y: int,
    px: int,
    py: int,
)
    requires
        0 < cell_width,
        m.contains(x, y),
        is_connector(m.connectivity(x, y)),
        0 <= px < cell_width,
        0 <= py < cell_width,
        on_closed_edge(px, py, cell_width, border, m.connectivity(x, y)),
    ensures
        rendered_tile_pixel(m, cell_width, border, x, y, px, py) == border_color(),
{
    lemma_rendered_tile(m, cell_width, border, x, y, px, py);
}

/// Away from the corners, where no two bands cross, a connector cell has no
/// border on the sides on which it is open: a pixel that lies in no band of
/// a closed side, and not in a band of each direction at once, has the
/// colour of the connector's kind.
pub proof fn lemma_open_side_is_clear(
    m: GridModel,
    cell_width: int,
    border: int,
    x: int,
    y: int,
    px: int,
    py: int,
)
    requires
        0 < cell_width,
        m.contains(x, y),
        is_connector(m.connectivity(x, y)),
        0 <= px < cell_width,
        0 <= py < cell_width,
        !on_closed_edge(px, py, cell_width, border, m.connectivity(x, y)),
        !(in_low_band(px, border) || in_high_band(px, cell_width, border)) || !(in_low_band(
            py,
            border,
        ) || in_high_band(py, cell_width, border)),
    ensures
        rendered_tile_pixel(m, cell_width, border, x, y, px, py) == kind_color(
            kind_of(m.connectivity(x, y)),
        ),
{
    lemma_rendered_tile(m, cell_width, border, x, y, px, py);
}

} // verus!
