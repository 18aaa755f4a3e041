//! From the image text of a world description to the PNG file of its
//! rendering.
//!
//! A world description carries its grid as a data URL: a fixed prefix, then
//! a PNG file in base64. The red channel of that image holds the base codes
//! of the cells, the green channel their connectivity bytes. The rendering
//! is handed back as a PNG file with its dimensions.

use vstd::prelude::*;
use vstd::string::StringSliceAdditionalSpecFns;
use crate::codec::Base64Error;
use crate::codec::PngWriteError;
use crate::codec::base64_decode;
use crate::codec::base64_decoding;
use crate::codec::lodepng_accepts;
use crate::codec::CHUNK_LIMIT;
use crate::codec::lodepng_decode_rgb;
use crate::codec::lodepng_encode_rgb;
use crate::codec::lodepng_rgb_encoding;
use crate::codec::png_encode_rgb;
use crate::codec::png_rgb_decoding;
use crate::codec::png_rgb_encoding;
use crate::compositor::RenderError;
use crate::compositor::render;
use crate::compositor::render_result;
use crate::compositor::renderable;
use crate::compositor::rendered;
use crate::grid::GridError;
use crate::grid::GridModel;
use crate::grid::GridView;
use crate::image::ImageModel;
use crate::image::OutputBuffer;

verus! {

/// Length in bytes of the prefix `data:image/png;base64,` that stands before
/// the base64 text of the image.
pub const PREFIX_LEN: usize = 22;

/// Number of channels of the bitmaps that the PNG decoder hands out.
pub const RGB_CHANNELS: usize = 3;

/// Why a world was not rendered to a PNG file.
#[derive(Copy, Clone, Debug, PartialEq, Eq, Structural)]
pub enum WorldError {
    /// The image text is too short to hold the data URL prefix.
    MissingPrefix,
    /// What follows the prefix is not base64.
    Base64(Base64Error),
    /// `lodepng` did not read the bytes as a PNG file; its error code.
    PngDecode(u32),
    /// The decoded bitmap does not have the size of its dimensions.
    Grid(GridError),
    /// The grid was not rendered.
    Render(RenderError),
    /// The image is beyond what `lodepng` is handed: its compressed data
    /// might not fit into one chunk of a PNG file, or a row of it is too
    /// long for the encoder to add up.
    StreamTooLarge,
    /// `lodepng` did not write the image; its error code.
    PngEncode(u32),
    /// The image is wider or higher than a PNG file can say.
    ImageTooLarge,
    /// The `png` crate did not write the image.
    PngWrite(PngWriteError),
}

/// A rendered world: the bytes of a PNG file, and the width and height of
/// the image in pixels.
#[derive(Debug, PartialEq, Eq)]
pub struct EncodeResult {
    pub data: Vec<u8>,
    pub w: usize,
    pub h: usize,
}

/// The mathematical content of an `EncodeResult`.
pub struct EncodedModel {
    pub data: Seq<u8>,
    pub w: nat,
    pub h: nat,
}

impl View for EncodeResult {
    type V = EncodedModel;

    open spec fn view(&self) -> EncodedModel {
        EncodedModel { data: self.data@, w: self.w as nat, h: self.h as nat }
    }
}

/// The mathematical content of what the pipeline returned.
pub open spec fn encoded(r: Result<EncodeResult, WorldError>) -> Result<EncodedModel, WorldError> {
    match r {
        Ok(res) => Ok(res@),
        Err(e) => Err(e),
    }
}

/// The mathematical content of a grid that was decoded or refused.
pub open spec fn decoded_grid(r: Result<GridView, WorldError>) -> Result<GridModel, WorldError> {
    match r {
        Ok(g) => Ok(g@),
        Err(e) => Err(e),
    }
}

/// The part of an image text that follows the data URL prefix, if the text
/// is long enough to hold the prefix. The prefix itself is not looked at.
pub open spec fn payload_of(text: Seq<u8>) -> Option<Seq<u8>> {
    if text.len() >= PREFIX_LEN {
        Some(text.subrange(PREFIX_LEN as int, text.len() as int))
    } else {
        None
    }
}

/// The bytes that an image text stands for: its payload, decoded as base64.
pub open spec fn image_bytes_of(text: Seq<u8>) -> Result<Seq<u8>, WorldError> {
    match payload_of(text) {
        None => Err(WorldError::MissingPrefix),
        Some(payload) => match base64_decoding(payload) {
            Ok(bytes) => Ok(bytes),
            Err(e) => Err(WorldError::Base64(e)),
        },
    }
}

/// A decoded RGB bitmap, read as a grid with three channels.
pub open spec fn bitmap_grid(bitmap: (nat, nat, Seq<u8>)) -> GridModel {
    GridModel { width: bitmap.0, height: bitmap.1, channels: RGB_CHANNELS as nat, data: bitmap.2 }
}

/// What `grid_from_bitmap` returns for a bitmap.
pub open spec fn bitmap_grid_result(bitmap: (nat, nat, Seq<u8>)) -> Result<GridModel, WorldError> {
    if bitmap_grid(bitmap).wf() {
        Ok(bitmap_grid(bitmap))
    } else {
        Err(WorldError::Grid(GridError::SizeMismatch))
    }
}

/// What may come of decoding a PNG file to a grid. `lodepng` has the last
/// word on whether it reads the file; if it does, the grid is the bitmap
/// that the file stands for.
pub open spec fn grid_result(png: Seq<u8>, r: Result<GridModel, WorldError>) -> bool {
    r matches Err(WorldError::PngDecode(_)) || r == bitmap_grid_result(png_rgb_decoding(png))
}

/// What may come of encoding an image. An image beyond the limits of
/// `lodepng` is refused. Of any other `lodepng` has the last word on whether
/// it writes the image; if it does, the result is what the `png` crate makes
/// of the image.
pub open spec fn encode_result(image: ImageModel, r: Result<EncodedModel, WorldError>) -> bool {
    if !lodepng_accepts(image.width as int, image.height as int) {
        r == Err::<EncodedModel, WorldError>(WorldError::StreamTooLarge)
    } else {
        r matches Err(WorldError::PngEncode(_)) || r == match png_rgb_encoding(
            image.data,
            image.width,
            image.height,
        ) {
            Ok(png) => Ok(EncodedModel { data: png, w: image.width, h: image.height }),
            Err(e) => Err(WorldError::PngWrite(e)),
        }
    }
}

/// What may come of rendering the grid of a PNG file to a PNG file: the
/// refusal of the decoder, or of the grid, or of the renderer, or else what
/// comes of encoding the image of the grid.
pub open spec fn render_png_result(
    png: Seq<u8>,
    cell_width: int,
    border: int,
    r: Result<EncodedModel, WorldError>,
) -> bool {
    r matches Err(WorldError::PngDecode(_)) || match bitmap_grid_result(png_rgb_decoding(png)) {
        Err(e) => r == Err::<EncodedModel, WorldError>(e),
        Ok(m) => if renderable(m, cell_width, border) {
            encode_result(rendered(m, cell_width, border), r)
        } else {
            r matches Err(WorldError::Render(e)) && render_result(m, cell_width, border, Err(e))
        },
    }
}

/// What may come of rendering a world from its image text. A tile size of
/// zero and a border wider than the tile are refused before anything is
/// decoded; then the text is decoded, then the PNG file in it is rendered.
/// So `StreamTooLarge` comes exactly when the text decodes to a file, the
/// decoder reads the file, its grid can be rendered, and the image of the
/// grid is beyond the limits of `lodepng`.
pub open spec fn world_result(
    text: Seq<u8>,
    cell_width: int,
    border: int,
    r: Result<EncodedModel, WorldError>,
) -> bool {
    if cell_width == 0 {
        r == Err::<EncodedModel, WorldError>(WorldError::Render(RenderError::ZeroCellWidth))
    } else if border > cell_width {
        r == Err::<EncodedModel, WorldError>(WorldError::Render(RenderError::BorderExceedsCell))
    } else {
        match image_bytes_of(text) {
            Err(e) => r == Err::<EncodedModel, WorldError>(e),
            Ok(png) => render_png_result(png, cell_width, border, r),
        }
    }
}

/// Whether rendering a world gets as far as an image that is beyond the
/// limits of `lodepng`: the parameters are in order, the text decodes to a
/// file, the bitmap of the file is a grid that can be rendered, and the
/// image of that grid is too large.
pub open spec fn reaches_too_large_image(text: Seq<u8>, cell_width: int, border: int) -> bool {
    &&& 0 < cell_width
    &&& border <= cell_width
    &&& image_bytes_of(text) matches Ok(png)
    &&& bitmap_grid_result(png_rgb_decoding(png)) matches Ok(m)
    &&& renderable(m, cell_width, border)
    &&& !lodepng_accepts(
        rendered(m, cell_width, border).width as int,
        rendered(m, cell_width, border).height as int,
    )
}

/// `StreamTooLarge` may come of rendering a world exactly when the work gets
/// as far as an image beyond the limits of `lodepng`; and then nothing else
/// comes of it, but for the refusal of the decoder.
pub proof fn lemma_stream_too_large(
    text: Seq<u8>,
    cell_width: int,
    border: int,
    r: Result<EncodedModel, WorldError>,
)
    requires
        0 <= cell_width,
        0 <= border,
    ensures
        world_result(
            text,
            cell_width,
            border,
            Err::<EncodedModel, WorldError>(WorldError::StreamTooLarge),
        ) <==> reaches_too_large_image(text, cell_width, border),
        reaches_too_large_image(text, cell_width, border) && world_result(
            text,
            cell_width,
            border,
            r,
        ) ==> r matches Err(WorldError::PngDecode(_)) || r == Err::<EncodedModel, WorldError>(
            WorldError::StreamTooLarge,
        ),
{
}

/// Cuts the data URL prefix off an image text.
pub fn payload(text: &[u8]) -> (r: Option<&[u8]>)
    ensures
        match r {
            Some(rest) => payload_of(text@) == Some(rest@),
            None => payload_of(text@) == None::<Seq<u8>>,
        },
{
    if text.len() < PREFIX_LEN {
        None
    } else {
        Some(&text[PREFIX_LEN..text.len()])
    }
}

/// Decodes an image text to the bytes of the file that it carries.
pub fn decode_image_text(text: &str) -> (r: Result<Vec<u8>, WorldError>)
    ensures
        match r {
            Ok(bytes) => image_bytes_of(text.spec_bytes()) == Ok::<Seq<u8>, WorldError>(bytes@),
            Err(e) => image_bytes_of(text.spec_bytes()) == Err::<Seq<u8>, WorldError>(e),
        },
{
    match payload(text.as_bytes()) {
        None => Err(WorldError::MissingPrefix),
        Some(rest) => match base64_decode(rest) {
            Ok(bytes) => Ok(bytes),
            Err(e) => Err(WorldError::Base64(e)),
        },
    }
}

/// Takes a decoded RGB bitmap as a grid, if it has the size of one.
pub fn grid_from_bitmap(width: usize, height: usize, pixels: Vec<u8>) -> (r: Result<
    GridView,
    WorldError,
>)
    ensures
        decoded_grid(r) == bitmap_grid_result((width as nat, height as nat, pixels@)),
        r is Ok <==> pixels@.len() == width * height * RGB_CHANNELS,
        r is Err ==> r->Err_0 == WorldError::Grid(GridError::SizeMismatch),
{
    match GridView::new(width, height, RGB_CHANNELS, pixels) {
        Ok(grid) => Ok(grid),
        Err(e) => Err(WorldError::Grid(e)),
    }
}

/// Decodes a PNG file to the grid that its pixels describe.
pub fn decode_grid(png: &[u8]) -> (r: Result<GridView, WorldError>)
    ensures
        grid_result(png@, decoded_grid(r)),
{
    match lodepng_decode_rgb(png) {
        Ok((width, height, pixels)) => grid_from_bitmap(width, height, pixels),
        Err(code) => Err(WorldError::PngDecode(code)),
    }
}

/// Tests whether an image of these dimensions is within the limits of
/// `lodepng`.
pub fn lodepng_takes(width: usize, height: usize) -> (b: bool)
    ensures
        b == lodepng_accepts(width as int, height as int),
{
    proof {
        let p = width as int * height as int;
        assert(0 <= p) by (nonlinear_arith)
            requires
                p == width as int * height as int,
                0 <= width,
                0 <= height,
        ;
    }
    let filtered: usize = match width.checked_mul(height) {
        Some(area) => match area.checked_mul(3) {
            Some(len) => match len.checked_add(height) {
                Some(n) => n,
                None => {
                    return false;
                },
            },
            None => {
                return false;
            },
        },
        None => {
            return false;
        },
    };
    if filtered >= CHUNK_LIMIT {
        return false;
    }
    let bound: usize = filtered + (filtered + 7) / 8 + (filtered + 63) / 64 + 17;
    if bound >= CHUNK_LIMIT {
        return false;
    }
    match width.checked_mul(3) {
        Some(row) => match row.checked_add(1) {
            Some(filtered_row) => filtered_row.checked_mul(255).is_some(),
            None => false,
        },
        None => false,
    }
}

/// Encodes an image as a PNG file with `lodepng`, unless the image is beyond
/// the limits of that encoder.
pub fn encode_lodepng(image: &OutputBuffer) -> (r: Result<Vec<u8>, WorldError>)
    ensures
        match r {
            Ok(png) => {
                &&& lodepng_accepts(image@.width as int, image@.height as int)
                &&& png@ == lodepng_rgb_encoding(image@.data, image@.width, image@.height)
                &&& 0 < image@.width <= u32::MAX
                &&& 0 < image@.height <= u32::MAX
            },
            Err(WorldError::StreamTooLarge) => !lodepng_accepts(
                image@.width as int,
                image@.height as int,
            ),
            Err(e) => lodepng_accepts(image@.width as int, image@.height as int)
                && e matches WorldError::PngEncode(_),
        },
{
    if !lodepng_takes(image.width(), image.height()) {
        return Err(WorldError::StreamTooLarge);
    }
    match lodepng_encode_rgb(image.data(), image.width(), image.height()) {
        Ok(png) => Ok(png),
        Err(code) => Err(WorldError::PngEncode(code)),
    }
}

/// What `encode_png` returns for an image.
pub open spec fn png_of(image: ImageModel) -> Result<Seq<u8>, WorldError> {
    if image.width > u32::MAX || image.height > u32::MAX {
        Err(WorldError::ImageTooLarge)
    } else {
        match png_rgb_encoding(image.data, image.width, image.height) {
            Ok(png) => Ok(png),
            Err(e) => Err(WorldError::PngWrite(e)),
        }
    }
}

/// Encodes an image as a PNG file with the `png` crate.
pub fn encode_png(image: &OutputBuffer) -> (r: Result<Vec<u8>, WorldError>)
    ensures
        match r {
            Ok(png) => png_of(image@) == Ok::<Seq<u8>, WorldError>(png@),
            Err(e) => png_of(image@) == Err::<Seq<u8>, WorldError>(e),
        },
{
    let width: usize = image.width();
    let height: usize = image.height();
    if width > u32::MAX as usize || height > u32::MAX as usize {
        return Err(WorldError::ImageTooLarge);
    }
    match png_encode_rgb(image.data(), width as u32, height as u32) {
        Ok(png) => Ok(png),
        Err(e) => Err(WorldError::PngWrite(e)),
    }
}

/// Encodes a rendered image: first with `lodepng`, which refuses an image
/// that no PNG file can hold and whose refusal ends the work, then with the
/// `png` crate, whose file is handed back. An image beyond the limits of
/// `lodepng` is refused before either is called.
pub fn encode_image(image: &OutputBuffer) -> (r: Result<EncodeResult, WorldError>)
    ensures
        encode_result(image@, encoded(r)),
{
    match encode_lodepng(image) {
        Ok(_) => {},
        Err(e) => {
            return Err(e);
        },
    }
    match encode_png(image) {
        Ok(data) => Ok(EncodeResult { data, w: image.width(), h: image.height() }),
        Err(e) => Err(e),
    }
}

/// Renders the grid that a PNG file describes, and encodes the image as a
/// PNG file.
pub fn render_png(png: &[u8], cell_width: usize, border: usize) -> (r: Result<
    EncodeResult,
    WorldError,
>)
    ensures
        render_png_result(png@, cell_width as int, border as int, encoded(r)),
{
    let grid = match decode_grid(png) {
        Ok(grid) => grid,
        Err(e) => {
            return Err(e);
        },
    };
    match render(&grid, cell_width, border) {
        Ok(image) => encode_image(&image),
        Err(e) => Err(WorldError::Render(e)),
    }
}

/// Renders a world from its image text: decodes the text to a PNG file, the
/// file to a grid, renders the grid and encodes the image.
pub fn render_world(text: &str, cell_width: usize, border: usize) -> (r: Result<
    EncodeResult,
    WorldError,
>)
    ensures
        world_result(text.spec_bytes(), cell_width as int, border as int, encoded(r)),
{
    if cell_width == 0 {
        return Err(WorldError::Render(RenderError::ZeroCellWidth));
    }
    if border > cell_width {
        return Err(WorldError::Render(RenderError::BorderExceedsCell));
    }
    match decode_image_text(text) {
        Ok(png) => render_png(png.as_slice(), cell_width, border),
        Err(e) => Err(e),
    }
}

} // verus!
