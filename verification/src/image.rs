//! The output image: a row-major RGB byte buffer with its dimensions.

use vstd::prelude::*;
use crate::color::Color;

verus! {

/// The mathematical content of an image: its dimensions in pixels and its
/// bytes, three per pixel, row by row.
pub struct ImageModel {
    pub width: nat,
    pub height: nat,
    pub data: Seq<u8>,
}

impl ImageModel {
    /// An image holds exactly three bytes for each of its pixels.
    pub open spec fn wf(self) -> bool {
        self.data.len() == 3 * (self.width * self.height)
    }

    /// The colour of the pixel in column `ix` of row `iy`.
    pub open spec fn pixel(self, ix: int, iy: int) -> Color {
        let at = 3 * (iy * self.width + ix);
        Color(self.data[at], self.data[at + 1], self.data[at + 2])
    }
}

/// One of the three channels of a colour: 0 is red, 1 is green, 2 is blue.
pub open spec fn channel(c: Color, k: int) -> u8 {
    if k == 0 {
        c.0
    } else if k == 1 {
        c.1
    } else {
        c.2
    }
}

/// The bytes of a sequence of pixels: red, green and blue of each in turn.
pub open spec fn flattened(pixels: Seq<Color>) -> Seq<u8> {
    Seq::new(3 * pixels.len(), |i: int| channel(pixels[i / 3], i % 3))
}

/// Lays a sequence of pixels out as RGB bytes.
pub fn flatten(pixels: &Vec<Color>) -> (bytes: Vec<u8>)
    requires
        3 * pixels@.len() <= usize::MAX,
    ensures
        bytes@ == flattened(pixels@),
{
    let n: usize = pixels.len();
    let mut bytes: Vec<u8> = Vec::with_capacity(3 * n);
    let mut i: usize = 0;
    while i < n
        invariant
            n == pixels@.len(),
            i <= n,
            bytes@.len() == 3 * i,
            forall|j: int| 0 <= j < 3 * i ==> bytes@[j] == channel(pixels@[j / 3], j % 3),
        decreases n - i,
    {
        let c = pixels[i];
        bytes.push(c.0);
        bytes.push(c.1);
        bytes.push(c.2);
        i = i + 1;
    }
    assert(bytes@ =~= flattened(pixels@));
    bytes
}

/// A rendered image, ready to be handed to an encoder.
#[derive(Debug, PartialEq, Eq)]
pub struct OutputBuffer {
    width: usize,
    height: usize,
    data: Vec<u8>,
}

impl View for OutputBuffer {
    type V = ImageModel;

    closed spec fn view(&self) -> ImageModel {
        ImageModel { width: self.width as nat, height: self.height as nat, data: self.data@ }
    }
}

impl OutputBuffer {
    #[verifier::type_invariant]
    spec fn inv(self) -> bool {
        self@.wf()
    }

    /// Takes a buffer of RGB bytes as an image of `width` by `height` pixels,
    /// if it has the size of one.
    pub fn from_rgb(width: usize, height: usize, data: Vec<u8>) -> (r: Option<OutputBuffer>)
        ensures
            match r {
                Some(out) => out@ == (ImageModel {
                    width: width as nat,
                    height: height as nat,
                    data: data@,
                }) && out@.wf(),
                None => data@.len() != 3 * (width * height),
            },
    {
        let given: usize = data.len();
        let fits: bool = match width.checked_mul(height) {
            Some(n) => match n.checked_mul(3) {
                Some(len) => given == len,
                None => false,
            },
            None => false,
        };
        if fits {
            Some(OutputBuffer { width, height, data })
        } else {
            None
        }
    }

    /// Puts an image together from parts that are known to fit.
    pub(crate) fn assemble(width: usize, height: usize, data: Vec<u8>) -> (out: OutputBuffer)
        requires
            data@.len() == 3 * (width * height),
        ensures
            out@ == (ImageModel { width: width as nat, height: height as nat, data: data@ }),
    {
        OutputBuffer { width, height, data }
    }

    /// Width of the image in pixels.
    pub fn width(&self) -> (w: usize)
        ensures
            w == self@.width,
            self@.wf(),
    {
        proof {
            use_type_invariant(self);
        }
        self.width
    }

    /// Height of the image in pixels.
    pub fn height(&self) -> (h: usize)
        ensures
            h == self@.height,
            self@.wf(),
    {
        proof {
            use_type_invariant(self);
        }
        self.height
    }

    /// The RGB bytes of the image, row by row.
    pub fn data(&self) -> (d: &Vec<u8>)
        ensures
            d@ == self@.data,
            self@.wf(),
    {
        proof {
            use_type_invariant(self);
        }
        &self.data
    }

    /// Gives up the image for its RGB bytes.
    pub fn into_data(self) -> (d: Vec<u8>)
        ensures
            d@ == self@.data,
            self@.wf(),
    {
        proof {
            use_type_invariant(&self);
        }
        self.data
    }

    /// The colour of the pixel in column `ix` of row `iy`, if there is one.
    pub fn pixel(&self, ix: usize, iy: usize) -> (c: Option<Color>)
        ensures
            c == if ix < self@.width && iy < self@.height {
                Some(self@.pixel(ix as int, iy as int))
            } else {
                None
            },
    {
        proof {
            use_type_invariant(self);
        }
        if ix >= self.width || iy >= self.height {
            return None;
        }
        proof {
            let w = self.width as int;
            let h = self.height as int;
            assert(self.data@.len() == self.data.len() <= usize::MAX);
            assert(0 <= iy * w && 3 * (iy * w + ix) + 3 <= 3 * (w * h)) by (nonlinear_arith)
                requires
                    0 <= ix < w,
                    0 <= iy < h,
            ;
        }
        let at: usize = 3 * (iy * self.width + ix);
        Some(Color(self.data[at], self.data[at + 1], self.data[at + 2]))
    }
}

} // verus!
