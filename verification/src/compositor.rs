//! The tile compositor: expands every cell of a grid into a tile of pixels.
//!
//! The image is `width + 2` by `height + 2` tiles large: one ring of empty
//! tiles surrounds the tiles of the grid. Every tile is `cell_width` pixels
//! on each side, and the tile of the cell `(x, y)` has its top left pixel at
//! `((x + 1) * cell_width, (y + 1) * cell_width)`.

use vstd::prelude::*;
use vstd::arithmetic::div_mod::lemma_fundamental_div_mod;
use vstd::arithmetic::div_mod::lemma_fundamental_div_mod_converse;
use vstd::arithmetic::div_mod::lemma_mod_bound;
use crate::border::color_at;
use crate::border::pixel_color;
use crate::color::Color;
use crate::color::EMPTY;
use crate::color::MAX_BASE_CODE;
use crate::color::background_color;
use crate::color::color_of_base;
use crate::connectivity::is_connector;
use crate::grid::GridModel;
use crate::grid::GridView;
use crate::grid::Neighbors;
use crate::grid::precedes;
use crate::image::ImageModel;
use crate::image::OutputBuffer;
use crate::image::flatten;
use crate::image::flattened;

verus! {

/// Why a grid was not rendered.
#[derive(Copy, Clone, Debug, PartialEq, Eq, Structural)]
pub enum RenderError {
    /// The tile size is zero.
    ZeroCellWidth,
    /// The border is wider than the tile.
    BorderExceedsCell,
    /// The image would hold more bytes than can be addressed.
    OutputTooLarge,
    /// The cell at `(x, y)` has a base code outside the colour table, be it
    /// a connector or not. It is the first such cell in reading order.
    MalformedCell { x: usize, y: usize },
}

/// The colour of the pixel at offset `(px, py)` of the tile of cell `(x, y)`.
pub open spec fn tile_pixel(
    m: GridModel,
    cell_width: int,
    border: int,
    x: int,
    y: int,
    px: int,
    py: int,
) -> Color {
    pixel_color(m.base(x, y), m.connectivity(x, y), m.around(x, y), px, py, cell_width, border)
}

/// Width in pixels of the image of a grid.
pub open spec fn image_width(m: GridModel, cell_width: int) -> int {
    (m.width + 2) * cell_width
}

/// Height in pixels of the image of a grid.
pub open spec fn image_height(m: GridModel, cell_width: int) -> int {
    (m.height + 2) * cell_width
}

/// Number of bytes of the image of a grid.
pub open spec fn image_len(m: GridModel, cell_width: int) -> int {
    3 * (image_width(m, cell_width) * image_height(m, cell_width))
}

/// The colour of the pixel in column `ix` of row `iy` of the image. The
/// pixel belongs to the tile in tile column `ix / cell_width` and tile row
/// `iy / cell_width`, and so to the cell one to the left of and one above
/// that place. The tiles of the surrounding ring belong to no cell, and read
/// as empty cells.
pub open spec fn image_pixel(m: GridModel, cell_width: int, border: int, ix: int, iy: int) -> Color {
    tile_pixel(
        m,
        cell_width,
        border,
        ix / cell_width - 1,
        iy / cell_width - 1,
        ix % cell_width,
        iy % cell_width,
    )
}

/// The pixels of the image, row by row.
pub open spec fn rendered_pixels(m: GridModel, cell_width: int, border: int) -> Seq<Color> {
    Seq::new(
        (image_width(m, cell_width) * image_height(m, cell_width)) as nat,
        |i: int|
            image_pixel(
                m,
                cell_width,
                border,
                i % image_width(m, cell_width),
                i / image_width(m, cell_width),
            ),
    )
}

/// The image of a grid.
pub open spec fn rendered(m: GridModel, cell_width: int, border: int) -> ImageModel {
    ImageModel {
        width: image_width(m, cell_width) as nat,
        height: image_height(m, cell_width) as nat,
        data: flattened(rendered_pixels(m, cell_width, border)),
    }
}

/// Whether a grid can be rendered with the given tile size and border.
pub open spec fn renderable(m: GridModel, cell_width: int, border: int) -> bool {
    &&& 0 < cell_width
    &&& 0 <= border <= cell_width
    &&& image_len(m, cell_width) <= usize::MAX
    &&& m.well_formed_cells()
}

/// What `render` returns for a grid, a tile size and a border: the image if
/// the grid can be rendered, else the first reason in this order why not.
pub open spec fn render_result(
    m: GridModel,
    cell_width: int,
    border: int,
    r: Result<ImageModel, RenderError>,
) -> bool {
    match r {
        Ok(image) => renderable(m, cell_width, border) && image == rendered(m, cell_width, border),
        Err(RenderError::ZeroCellWidth) => cell_width == 0,
        Err(RenderError::BorderExceedsCell) => 0 < cell_width < border,
        Err(RenderError::OutputTooLarge) => 0 < cell_width && border <= cell_width && image_len(
            m,
            cell_width,
        ) > usize::MAX,
        Err(RenderError::MalformedCell { x, y }) => 0 < cell_width && border <= cell_width
            && image_len(m, cell_width) <= usize::MAX && m.first_malformed(x as int, y as int),
    }
}

/// The mathematical content of what `render` returned.
pub open spec fn outcome(r: Result<OutputBuffer, RenderError>) -> Result<ImageModel, RenderError> {
    match r {
        Ok(out) => Ok(out@),
        Err(e) => Err(e),
    }
}

/// Whether pixel `i` of a row-major image of width `w` lies in the tile in
/// tile column `tx` and tile row `ty`.
pub open spec fn in_tile(i: int, w: int, cell_width: int, tx: int, ty: int) -> bool {
    (i % w) / cell_width == tx && (i / w) / cell_width == ty
}

/// Whether pixel `i` lies in the tile `(tx, ty)` at an offset that comes, in
/// reading order, before the offset `(px, py)`.
spec fn tile_painted_before(
    i: int,
    w: int,
    cell_width: int,
    tx: int,
    ty: int,
    px: int,
    py: int,
) -> bool {
    in_tile(i, w, cell_width, tx, ty) && precedes(
        (i % w) % cell_width,
        (i / w) % cell_width,
        px,
        py,
    )
}

/// Whether pixel `i` lies in the tile of a cell of the grid that comes, in
/// reading order, before the cell `(x, y)`.
spec fn cell_painted_before(i: int, w: int, cell_width: int, m: GridModel, x: int, y: int) -> bool {
    let tx = (i % w) / cell_width;
    let ty = (i / w) / cell_width;
    m.contains(tx - 1, ty - 1) && precedes(tx - 1, ty - 1, x, y)
}

/// A pixel index made of a row and a column gives back that row and column.
proof fn lemma_index_coords(ix: int, iy: int, w: int)
    requires
        0 <= ix < w,
    ensures
        (iy * w + ix) % w == ix,
        (iy * w + ix) / w == iy,
{
    lemma_fundamental_div_mod_converse(iy * w + ix, w, iy, ix);
}

/// The pixel at offset `(px, py)` of the tile `(tx, ty)` is the only pixel of
/// the image at that offset of that tile.
proof fn lemma_tile_pixel_index(
    i: int,
    w: int,
    cell_width: int,
    tx: int,
    ty: int,
    px: int,
    py: int,
)
    requires
        0 < cell_width,
        0 <= px < cell_width,
        0 <= py < cell_width,
        0 <= tx,
        (tx + 1) * cell_width <= w,
    ensures
        i == (ty * cell_width + py) * w + tx * cell_width + px <==> in_tile(
            i,
            w,
            cell_width,
            tx,
            ty,
        ) && (i % w) % cell_width == px && (i / w) % cell_width == py,
{
    let ix = tx * cell_width + px;
    let iy = ty * cell_width + py;
    assert(0 <= ix < w) by (nonlinear_arith)
        requires
            0 <= tx,
            0 < cell_width,
            0 <= px < cell_width,
            ix == tx * cell_width + px,
            (tx + 1) * cell_width <= w,
    ;
    if i == iy * w + ix {
        lemma_index_coords(ix, iy, w);
        lemma_fundamental_div_mod_converse(ix, cell_width, tx, px);
        lemma_fundamental_div_mod_converse(iy, cell_width, ty, py);
    }
    if in_tile(i, w, cell_width, tx, ty) && (i % w) % cell_width == px && (i / w) % cell_width
        == py {
        lemma_fundamental_div_mod(i, w);
        lemma_fundamental_div_mod(i % w, cell_width);
        lemma_fundamental_div_mod(i / w, cell_width);
        assert(cell_width * tx == tx * cell_width) by (nonlinear_arith);
        assert(cell_width * ty == ty * cell_width) by (nonlinear_arith);
        assert(w * (i / w) == (i / w) * w) by (nonlinear_arith);
    }
}

/// Where the tile `(tx, ty)` ends, in an image of `tiles_w` by `tiles_h`
/// tiles.
proof fn lemma_tile_extent(tx: int, ty: int, cell_width: int, tiles_w: int, tiles_h: int)
    requires
        0 < cell_width,
        0 <= tx < tiles_w,
        0 <= ty < tiles_h,
    ensures
        (tx + 1) * cell_width <= tiles_w * cell_width,
        (ty + 1) * cell_width * (tiles_w * cell_width) <= (tiles_w * cell_width) * (tiles_h
            * cell_width),
{
    assert((tx + 1) * cell_width <= tiles_w * cell_width) by (nonlinear_arith)
        requires
            0 < cell_width,
            0 <= tx < tiles_w,
    ;
    let a = (ty + 1) * cell_width;
    let b = tiles_h * cell_width;
    let w = tiles_w * cell_width;
    assert(a <= b && 0 <= w) by (nonlinear_arith)
        requires
            0 < cell_width,
            0 <= ty < tiles_h,
            0 < tiles_w,
            a == (ty + 1) * cell_width,
            b == tiles_h * cell_width,
            w == tiles_w * cell_width,
    ;
    assert(a * w <= w * b) by (nonlinear_arith)
        requires
            a <= b,
            0 <= w,
    ;
}

/// A tile outside the grid is painted in the background colour throughout.
proof fn lemma_outside_tile_is_background(
    m: GridModel,
    cell_width: int,
    border: int,
    x: int,
    y: int,
    px: int,
    py: int,
)
    requires
        !m.contains(x, y),
    ensures
        tile_pixel(m, cell_width, border, x, y, px, py) == background_color(),
{
}

/// Computes the dimensions of the image in pixels, unless its bytes cannot
/// be addressed.
fn output_dimensions(width: usize, height: usize, cell_width: usize) -> (r: Option<(usize, usize)>)
    requires
        0 < cell_width,
    ensures
        match r {
            Some((w, h)) => {
                &&& w == (width + 2) * cell_width
                &&& h == (height + 2) * cell_width
                &&& 3 * (w * h) <= usize::MAX
            },
            None => 3 * (((width + 2) * cell_width) * ((height + 2) * cell_width)) > usize::MAX,
        },
{
    proof {
        let w = (width + 2) * cell_width;
        let h = (height + 2) * cell_width;
        assert(w >= width + 2 && h >= height + 2 && w * h >= w && w * h >= h) by (nonlinear_arith)
            requires
                w == (width + 2) * cell_width,
                h == (height + 2) * cell_width,
                0 < cell_width,
                0 <= width,
                0 <= height,
        ;
    }
    let tiles_w: usize = match width.checked_add(2) {
        Some(n) => n,
        None => {
            return None;
        },
    };
    let tiles_h: usize = match height.checked_add(2) {
        Some(n) => n,
        None => {
            return None;
        },
    };
    let w: usize = match tiles_w.checked_mul(cell_width) {
        Some(n) => n,
        None => {
            return None;
        },
    };
    let h: usize = match tiles_h.checked_mul(cell_width) {
        Some(n) => n,
        None => {
            return None;
        },
    };
    let pixels: usize = match w.checked_mul(h) {
        Some(n) => n,
        None => {
            return None;
        },
    };
    match pixels.checked_mul(3) {
        Some(_) => Some((w, h)),
        None => None,
    }
}

/// Paints the tile in tile column `tx` and tile row `ty` of a row-major image
/// of width `image_w`: every pixel of the tile takes the colour that the
/// border rule gives it, and no other pixel changes.
pub fn paint_tile(
    pixels: &mut Vec<Color>,
    image_w: usize,
    cell_width: usize,
    border: usize,
    tx: usize,
    ty: usize,
    base: u8,
    own: u8,
    around: &Neighbors,
)
    requires
        0 < cell_width,
        border <= cell_width,
        (tx + 1) * cell_width <= image_w,
        (ty + 1) * cell_width * image_w <= old(pixels)@.len(),
        !is_connector(own) ==> base <= MAX_BASE_CODE,
    ensures
        final(pixels)@.len() == old(pixels)@.len(),
        forall|i: int|
            0 <= i < old(pixels)@.len() ==> #[trigger] final(pixels)@[i] == (if in_tile(
                i,
                image_w as int,
                cell_width as int,
                tx as int,
                ty as int,
            ) {
                pixel_color(
                    base,
                    own,
                    *around,
                    (i % image_w as int) % cell_width as int,
                    (i / image_w as int) % cell_width as int,
                    cell_width as int,
                    border as int,
                )
            } else {
                old(pixels)@[i]
            }),
{
    let ghost before = pixels@;
    let ghost w = image_w as int;
    let ghost cw = cell_width as int;
    proof {
        assert(pixels@.len() == pixels.len() <= usize::MAX);
        assert(0 <= tx * cw && tx * cw + cw == (tx + 1) * cw && 0 <= ty * cw && ty * cw + cw == (ty
            + 1) * cw) by (nonlinear_arith)
            requires
                0 < cw,
                0 <= tx,
                0 <= ty,
        ;
        assert((ty + 1) * cw <= (ty + 1) * cw * w) by (nonlinear_arith)
            requires
                0 <= (ty + 1) * cw,
                1 <= w,
        ;
    }
    let x0: usize = tx * cell_width;
    let y0: usize = ty * cell_width;
    let mut py: usize = 0;
    while py < cell_width
        invariant
            0 < cell_width,
            border <= cell_width,
            w == image_w,
            cw == cell_width,
            py <= cell_width,
            x0 == tx * cw,
            y0 == ty * cw,
            x0 + cw <= w,
            y0 + cw <= before.len(),
            (y0 + cw) * w <= before.len(),
            (tx + 1) * cw <= w,
            !is_connector(own) ==> base <= MAX_BASE_CODE,
            pixels@.len() == before.len(),
            before.len() <= usize::MAX,
            forall|i: int|
                0 <= i < before.len() ==> #[trigger] pixels@[i] == (if tile_painted_before(
                    i,
                    w,
                    cw,
                    tx as int,
                    ty as int,
                    0,
                    py as int,
                ) {
                    pixel_color(base, own, *around, (i % w) % cw, (i / w) % cw, cw, border as int)
                } else {
                    before[i]
                }),
        decreases cell_width - py,
    {
        proof {
            assert((y0 + py) * w + w <= (y0 + cw) * w && 0 <= (y0 + py) * w) by (nonlinear_arith)
                requires
                    0 <= y0,
                    0 <= py < cw,
                    0 <= w,
            ;
        }
        let row_start: usize = (y0 + py) * image_w + x0;
        let mut px: usize = 0;
        while px < cell_width
            invariant
                0 < cell_width,
                border <= cell_width,
                w == image_w,
                cw == cell_width,
                py < cell_width,
                px <= cell_width,
                x0 == tx * cw,
                y0 == ty * cw,
                x0 + cw <= w,
                (tx + 1) * cw <= w,
                row_start == (y0 + py) * w + x0,
                row_start + cw <= before.len(),
                !is_connector(own) ==> base <= MAX_BASE_CODE,
                pixels@.len() == before.len(),
                before.len() <= usize::MAX,
                forall|i: int|
                    0 <= i < before.len() ==> #[trigger] pixels@[i] == (if tile_painted_before(
                        i,
                        w,
                        cw,
                        tx as int,
                        ty as int,
                        px as int,
                        py as int,
                    ) {
                        pixel_color(
                            base,
                            own,
                            *around,
                            (i % w) % cw,
                            (i / w) % cw,
                            cw,
                            border as int,
                        )
                    } else {
                        before[i]
                    }),
            decreases cell_width - px,
        {
            let c = color_at(base, own, around, px, py, cell_width, border);
            let ghost painted = pixels@;
            pixels.set(row_start + px, c);
            proof {
                let j = row_start + px;
                assert forall|i: int| 0 <= i < before.len() implies #[trigger] pixels@[i] == (
                if tile_painted_before(i, w, cw, tx as int, ty as int, px + 1, py as int) {
                    pixel_color(base, own, *around, (i % w) % cw, (i / w) % cw, cw, border as int)
                } else {
                    before[i]
                }) by {
                    lemma_tile_pixel_index(i, w, cw, tx as int, ty as int, px as int, py as int);
                    assert(pixels@[i] == if i == j {
                        c
                    } else {
                        painted[i]
                    });
                }
            }
            px = px + 1;
        }
        proof {
            assert forall|i: int| 0 <= i < before.len() implies #[trigger] pixels@[i] == (
            if tile_painted_before(i, w, cw, tx as int, ty as int, 0, py + 1) {
                pixel_color(base, own, *around, (i % w) % cw, (i / w) % cw, cw, border as int)
            } else {
                before[i]
            }) by {
                lemma_mod_bound(i % w, cw);
            }
        }
        py = py + 1;
    }
    proof {
        assert forall|i: int| 0 <= i < before.len() implies #[trigger] pixels@[i] == (if in_tile(
            i,
            w,
            cw,
            tx as int,
            ty as int,
        ) {
            pixel_color(base, own, *around, (i % w) % cw, (i / w) % cw, cw, border as int)
        } else {
            before[i]
        }) by {
            lemma_mod_bound(i / w, cw);
        }
    }
}

/// Renders a grid: every cell becomes a tile of `cell_width` by `cell_width`
/// pixels, with a border of `border` pixels on its closed sides, and a ring
/// of empty tiles surrounds the whole.
///
/// The image starts out in the background colour. Then the tile of every
/// cell is painted, the tiles of empty cells too. Nothing is returned for a
/// grid that holds a base code outside the colour table.
pub fn render(grid: &GridView, cell_width: usize, border: usize) -> (r: Result<
    OutputBuffer,
    RenderError,
>)
    ensures
        render_result(grid@, cell_width as int, border as int, outcome(r)),
        r is Ok <==> renderable(grid@, cell_width as int, border as int),
{
    if cell_width == 0 {
        return Err(RenderError::ZeroCellWidth);
    }
    if border > cell_width {
        return Err(RenderError::BorderExceedsCell);
    }
    let width: usize = grid.width();
    let height: usize = grid.height();
    let (image_w, image_h) = match output_dimensions(width, height, cell_width) {
        Some(dimensions) => dimensions,
        None => {
            return Err(RenderError::OutputTooLarge);
        },
    };
    match grid.find_malformed() {
        Some((x, y)) => {
            assert(grid@.malformed(x as int, y as int));
            return Err(RenderError::MalformedCell { x, y });
        },
        None => {},
    }
    let ghost m = grid@;
    let ghost w = image_w as int;
    let ghost cw = cell_width as int;
    let background = color_of_base(EMPTY);
    let mut pixels: Vec<Color> = vec![background; image_w * image_h];
    let mut y: usize = 0;
    while y < height
        invariant
            0 < cell_width,
            border <= cell_width,
            m == grid@,
            m.wf(),
            m.well_formed_cells(),
            w == image_w,
            cw == cell_width,
            width == m.width,
            height == m.height,
            y <= height,
            image_w == (width + 2) * cw,
            image_h == (height + 2) * cw,
            pixels@.len() == w * image_h,
            forall|i: int|
                0 <= i < w * image_h ==> #[trigger] pixels@[i] == (if cell_painted_before(
                    i,
                    w,
                    cw,
                    m,
                    0,
                    y as int,
                ) {
                    image_pixel(m, cw, border as int, i % w, i / w)
                } else {
                    background_color()
                }),
        decreases height - y,
    {
        let mut x: usize = 0;
        while x < width
            invariant
                0 < cell_width,
                border <= cell_width,
                m == grid@,
                m.wf(),
                m.well_formed_cells(),
                w == image_w,
                cw == cell_width,
                width == m.width,
                height == m.height,
                y < height,
                x <= width,
                image_w == (width + 2) * cw,
                image_h == (height + 2) * cw,
                pixels@.len() == w * image_h,
                forall|i: int|
                    0 <= i < w * image_h ==> #[trigger] pixels@[i] == (if cell_painted_before(
                        i,
                        w,
                        cw,
                        m,
                        x as int,
                        y as int,
                    ) {
                        image_pixel(m, cw, border as int, i % w, i / w)
                    } else {
                        background_color()
                    }),
            decreases width - x,
        {
            let cell = grid.get(x, y);
            let around = grid.neighbors(x, y);
            let ghost painted = pixels@;
            proof {
                lemma_tile_extent(x + 1, y + 1, cw, width + 2, height + 2);
                assert(!m.malformed(x as int, y as int));
            }
            paint_tile(&mut pixels, image_w, cell_width, border, x + 1, y + 1, cell.0, cell.1, &around);
            proof {
                assert forall|i: int| 0 <= i < w * image_h implies #[trigger] pixels@[i] == (
                if cell_painted_before(i, w, cw, m, x + 1, y as int) {
                    image_pixel(m, cw, border as int, i % w, i / w)
                } else {
                    background_color()
                }) by {
                    assert(pixels@[i] == if in_tile(i, w, cw, x + 1, y + 1) {
                        pixel_color(
                            cell.0,
                            cell.1,
                            around,
                            (i % w) % cw,
                            (i / w) % cw,
                            cw,
                            border as int,
                        )
                    } else {
                        painted[i]
                    });
                }
            }
            x = x + 1;
        }
        y = y + 1;
    }
    proof {
        assert forall|i: int| 0 <= i < w * image_h implies #[trigger] pixels@[i] == image_pixel(
            m,
            cw,
            border as int,
            i % w,
            i / w,
        ) by {
            let gx = (i % w) / cw - 1;
            let gy = (i / w) / cw - 1;
            if !m.contains(gx, gy) {
                lemma_outside_tile_is_background(
                    m,
                    cw,
                    border as int,
                    gx,
                    gy,
                    (i % w) % cw,
                    (i / w) % cw,
                );
            }
        }
        assert(pixels@ =~= rendered_pixels(m, cw, border as int));
    }
    let data = flatten(&pixels);
    Ok(OutputBuffer::assemble(image_w, image_h, data))
}

} // verus!
