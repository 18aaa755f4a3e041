//! The outside codecs: base64 text to bytes, PNG bytes to pixels, and pixels
//! to PNG bytes.
//!
//! No function of this module is proved. Each hands its arguments to an
//! outside crate, and its contract states what is taken on trust about that
//! crate. What a codec computes is far too long to write down here, so each
//! result has a name, and the contracts say only that the call returns what
//! the name stands for. The limits within which a codec may be called are
//! written out, so that callers can test them.

use vstd::prelude::*;
use rustc_serialize::base64::FromBase64;
use rustc_serialize::base64::FromBase64Error;

verus! {

/// Why a text is not base64.
#[derive(Copy, Clone, Debug, PartialEq, Eq, Structural)]
pub enum Base64Error {
    /// The byte `byte` at position `at` belongs to no base64 alphabet.
    InvalidByte { byte: u8, at: usize },
    /// The text stops in the middle of a group.
    InvalidLength,
}

/// Why the `png` crate did not write an image.
#[derive(Copy, Clone, Debug, PartialEq, Eq, Structural)]
pub enum PngWriteError {
    /// The output could not be written to.
    Io,
    /// The image cannot be expressed as a PNG file, such as one of width or
    /// height zero.
    Format,
    /// An argument was refused, such as a buffer of the wrong size.
    Parameter,
    /// A limit of the encoder was exceeded.
    LimitsExceeded,
}

/// What `rustc_serialize` decodes a base64 text to: the bytes, or the reason
/// why the text is refused.
pub uninterp spec fn base64_decoding(text: Seq<u8>) -> Result<Seq<u8>, Base64Error>;

/// What `lodepng` decodes a PNG file to, as 8-bit RGB, when it decodes it:
/// the width, the height, and three bytes per pixel, row by row.
pub uninterp spec fn png_rgb_decoding(png: Seq<u8>) -> (nat, nat, Seq<u8>);

/// The PNG file that `lodepng` writes for an 8-bit RGB image, when it writes
/// one.
pub uninterp spec fn lodepng_rgb_encoding(pixels: Seq<u8>, width: nat, height: nat) -> Seq<u8>;

/// What the `png` crate writes for an 8-bit RGB image: the PNG file, or the
/// reason why none is written.
pub uninterp spec fn png_rgb_encoding(pixels: Seq<u8>, width: nat, height: nat) -> Result<
    Seq<u8>,
    PngWriteError,
>;

/// Calls `rustc_serialize::base64::FromBase64::from_base64` on a byte slice.
///
/// Trusted: the decoder reads nothing but the text, and it fails only by
/// returning an error, so its result is a function of the text alone. An
/// invalid byte is reported with its position in the text.
#[verifier::external_body]
pub(crate) fn base64_decode(text: &[u8]) -> (r: Result<Vec<u8>, Base64Error>)
    ensures
        match r {
            Ok(bytes) => base64_decoding(text@) == Ok::<Seq<u8>, Base64Error>(bytes@),
            Err(e) => base64_decoding(text@) == Err::<Seq<u8>, Base64Error>(e),
        },
{
    match text.from_base64() {
        Ok(bytes) => Ok(bytes),
        Err(FromBase64Error::InvalidBase64Byte(byte, at)) => Err(
            Base64Error::InvalidByte { byte, at },
        ),
        Err(FromBase64Error::InvalidBase64Length) => Err(Base64Error::InvalidLength),
    }
}

/// Calls `lodepng::decode24`, and lays the pixels out as bytes.
///
/// Trusted: when the decoder succeeds, the image depends on the file alone.
/// Nothing is claimed of when it fails: besides refusing a malformed file it
/// reports an allocation that failed. The error is its numeric code.
#[verifier::external_body]
pub(crate) fn lodepng_decode_rgb(png: &[u8]) -> (r: Result<(usize, usize, Vec<u8>), u32>)
    ensures
        r matches Ok((width, height, pixels)) ==> png_rgb_decoding(png@) == (
            width as nat,
            height as nat,
            pixels@,
        ),
{
    match lodepng::decode24(png) {
        Ok(bitmap) => {
            let mut pixels = Vec::with_capacity(bitmap.buffer.len() * 3);
            for p in bitmap.buffer.iter() {
                pixels.extend_from_slice(&[p.r, p.g, p.b]);
            }
            Ok((bitmap.width, bitmap.height, pixels))
        },
        Err(e) => Err(lodepng::ErrorCode::from(e).0),
    }
}

/// The length that one chunk of a PNG file must stay below: `lodepng` checks
/// it, in builds with debug assertions by a panic.
pub const CHUNK_LIMIT: usize = 0x8000_0000;

/// An upper bound on the length of the zlib stream that the compressor
/// behind `lodepng` makes of `n` bytes. It is the conservative bound that
/// zlib-rs documents for any setting, about an eighth and a sixty-fourth in
/// addition to the input, with the largest of its constants and wrappers.
pub open spec fn deflate_bound(n: int) -> int {
    n + (n + 7) / 8 + (n + 63) / 64 + 17
}

/// Whether an 8-bit RGB image of these dimensions is within the limits of
/// `lodepng::encode24`.
///
/// The encoder compresses the filtered image, which is one byte for each row
/// and at most three for each pixel, into a single chunk; so the bound on
/// what the compressor makes of that must be below the limit of a chunk.
/// And it adds up the bytes of a row, and counts its bits, in a `usize`; so
/// 255 times the length of a filtered row must fit in one.
pub open spec fn lodepng_accepts(width: int, height: int) -> bool {
    &&& deflate_bound(3 * (width * height) + height) < CHUNK_LIMIT
    &&& 255 * (3 * width + 1) <= usize::MAX
}

/// Calls `lodepng::encode24` on a buffer of RGB bytes.
///
/// Trusted: when the encoder succeeds, the file depends on the pixels and
/// the dimensions alone, and neither dimension is zero or beyond 32 bits,
/// for the encoder refuses those. Nothing else is claimed of when it fails:
/// it also reports an allocation that failed. The error is its numeric code.
///
/// Three kinds of input may make the encoder panic, and are ruled out: a
/// buffer of another size than the dimensions ask for, an image whose
/// compressed data may reach the limit of a chunk, and a row so long that
/// the sum of its bytes may overflow.
#[verifier::external_body]
pub(crate) fn lodepng_encode_rgb(pixels: &Vec<u8>, width: usize, height: usize) -> (r: Result<
    Vec<u8>,
    u32,
>)
    requires
        pixels@.len() == 3 * (width * height),
        lodepng_accepts(width as int, height as int),
    ensures
        r matches Ok(png) ==> {
            &&& png@ == lodepng_rgb_encoding(pixels@, width as nat, height as nat)
            &&& 0 < width <= u32::MAX
            &&& 0 < height <= u32::MAX
        },
{
    match lodepng::encode24(pixels.as_slice(), width, height) {
        Ok(png) => Ok(png),
        Err(e) => Err(lodepng::ErrorCode::from(e).0),
    }
}

/// Writes an 8-bit RGB image with `png::Encoder`: header, image data and end
/// of file, into a fresh vector.
///
/// Trusted: the encoder reads nothing but its arguments and writes to memory
/// only, so its result is a function of the pixels and the dimensions alone.
/// A buffer of another size than the dimensions ask for may make the encoder
/// overflow while it computes the size it expects, so it is ruled out.
#[verifier::external_body]
pub(crate) fn png_encode_rgb(pixels: &Vec<u8>, width: u32, height: u32) -> (r: Result<
    Vec<u8>,
    PngWriteError,
>)
    requires
        pixels@.len() == 3 * (width * height),
    ensures
        match r {
            Ok(png) => png_rgb_encoding(pixels@, width as nat, height as nat) == Ok::<
                Seq<u8>,
                PngWriteError,
            >(png@),
            Err(e) => png_rgb_encoding(pixels@, width as nat, height as nat) == Err::<
                Seq<u8>,
                PngWriteError,
            >(e),
        },
{
    let mut out = Vec::new();
    let mut encoder = png::Encoder::new(&mut out, width, height);
    encoder.set_color(png::ColorType::Rgb);
    let written = match encoder.write_header() {
        Ok(mut writer) => writer.write_image_data(pixels),
        Err(e) => Err(e),
    };
    match written {
        Ok(()) => Ok(out),
        Err(png::EncodingError::IoError(_)) => Err(PngWriteError::Io),
        Err(png::EncodingError::Format(_)) => Err(PngWriteError::Format),
        Err(png::EncodingError::Parameter(_)) => Err(PngWriteError::Parameter),
        Err(png::EncodingError::LimitsExceeded) => Err(PngWriteError::LimitsExceeded),
    }
}

} // verus!
