//! A read-only, bounds-safe accessor over a decoded source pixel buffer.
//!
//! The buffer is row-major with a fixed number of channels per pixel. The
//! first channel of a pixel is the base code of the cell at that place, the
//! second its connectivity byte; further channels are ignored.

use vstd::prelude::*;
use crate::color::EMPTY;
use crate::color::MAX_BASE_CODE;

verus! {

/// The connectivity bytes of the four cardinal neighbours of a cell.
#[derive(Copy, Clone, Debug, PartialEq, Eq, Structural)]
pub struct Neighbors {
    pub up: u8,
    pub right: u8,
    pub down: u8,
    pub left: u8,
}

/// The mathematical content of a grid: its dimensions, the number of channels
/// per pixel and the raw channel values in row-major order.
pub struct GridModel {
    pub width: nat,
    pub height: nat,
    pub channels: nat,
    pub data: Seq<u8>,
}

impl GridModel {
    /// A grid has at least the two channels that are read, and a buffer of
    /// exactly the size that its dimensions ask for.
    pub open spec fn wf(self) -> bool {
        &&& self.channels >= 2
        &&& self.data.len() == self.width * self.height * self.channels
    }

    /// Whether `(x, y)` names a cell of the grid.
    pub open spec fn contains(self, x: int, y: int) -> bool {
        0 <= x < self.width && 0 <= y < self.height
    }

    /// Position in `data` of the first channel of the cell at `(x, y)`.
    pub open spec fn offset(self, x: int, y: int) -> int {
        (y * self.width + x) * self.channels
    }

    /// The base code and the connectivity byte at `(x, y)`. Every coordinate
    /// outside the grid reads as an empty cell without connectivity.
    pub open spec fn cell(self, x: int, y: int) -> (u8, u8) {
        if self.contains(x, y) {
            (self.data[self.offset(x, y)], self.data[self.offset(x, y) + 1])
        } else {
            (EMPTY, 0u8)
        }
    }

    /// The base code at `(x, y)`.
    pub open spec fn base(self, x: int, y: int) -> u8 {
        self.cell(x, y).0
    }

    /// The connectivity byte at `(x, y)`.
    pub open spec fn connectivity(self, x: int, y: int) -> u8 {
        self.cell(x, y).1
    }

    /// The connectivity bytes of the four cardinal neighbours of `(x, y)`.
    /// Beyond the edge of the grid a neighbour has no connectivity.
    pub open spec fn around(self, x: int, y: int) -> Neighbors {
        Neighbors {
            up: self.connectivity(x, y - 1),
            right: self.connectivity(x + 1, y),
            down: self.connectivity(x, y + 1),
            left: self.connectivity(x - 1, y),
        }
    }

    /// Whether `(x, y)` is a cell of the grid whose base code is outside the
    /// colour table.
    pub open spec fn malformed(self, x: int, y: int) -> bool {
        self.contains(x, y) && self.base(x, y) > MAX_BASE_CODE
    }

    /// Whether every base code of the grid is inside the colour table.
    pub open spec fn well_formed_cells(self) -> bool {
        forall|x: int, y: int| !#[trigger] self.malformed(x, y)
    }

    /// Whether `(x, y)` is the first malformed cell in reading order: rows
    /// from the top, each row from the left.
    pub open spec fn first_malformed(self, x: int, y: int) -> bool {
        &&& self.malformed(x, y)
        &&& forall|x2: int, y2: int|
            precedes(x2, y2, x, y) ==> !#[trigger] self.malformed(x2, y2)
    }
}

/// Reading order of cells: `(x1, y1)` comes strictly before `(x2, y2)`.
pub open spec fn precedes(x1: int, y1: int, x2: int, y2: int) -> bool {
    y1 < y2 || (y1 == y2 && x1 < x2)
}

/// Why a pixel buffer was refused as a grid.
#[derive(Copy, Clone, Debug, PartialEq, Eq, Structural)]
pub enum GridError {
    /// Fewer than two channels per pixel: there is no connectivity channel.
    TooFewChannels,
    /// The buffer does not hold `width * height * channels` values.
    SizeMismatch,
}

/// A decoded source image, read as a grid of cells.
#[derive(Debug, PartialEq, Eq)]
pub struct GridView {
    width: usize,
    height: usize,
    channels: usize,
    data: Vec<u8>,
}

impl View for GridView {
    type V = GridModel;

    closed spec fn view(&self) -> GridModel {
        GridModel {
            width: self.width as nat,
            height: self.height as nat,
            channels: self.channels as nat,
            data: self.data@,
        }
    }
}

/// The cells of a well-formed grid lie inside its buffer.
pub proof fn lemma_cell_in_buffer(m: GridModel, x: int, y: int)
    requires
        m.wf(),
        m.contains(x, y),
    ensures
        0 <= m.offset(x, y),
        m.offset(x, y) + m.channels <= m.data.len(),
        m.offset(x, y) + 1 < m.data.len(),
{
    let w = m.width as int;
    let h = m.height as int;
    let ch = m.channels as int;
    assert(0 <= (y * w + x) * ch && (y * w + x) * ch + ch <= w * h * ch) by (nonlinear_arith)
        requires
            0 <= x < w,
            0 <= y < h,
            ch >= 2,
    ;
}

impl GridView {
    #[verifier::type_invariant]
    spec fn inv(self) -> bool {
        self@.wf()
    }

    /// Takes a pixel buffer as a grid of `width` by `height` cells with
    /// `channels` values per pixel.
    pub fn new(width: usize, height: usize, channels: usize, data: Vec<u8>) -> (r: Result<
        GridView,
        GridError,
    >)
        ensures
            match r {
                Ok(g) => g@ == (GridModel {
                    width: width as nat,
                    height: height as nat,
                    channels: channels as nat,
                    data: data@,
                }) && g@.wf(),
                Err(GridError::TooFewChannels) => channels < 2,
                Err(GridError::SizeMismatch) => channels >= 2 && data@.len() != width * height
                    * channels,
            },
    {
        if channels < 2 {
            return Err(GridError::TooFewChannels);
        }
        let given: usize = data.len();
        let cells: usize = match width.checked_mul(height) {
            Some(n) => n,
            None => {
                proof {
                    lemma_product_exceeds(width as int, height as int, channels as int);
                }
                return Err(GridError::SizeMismatch);
            },
        };
        let len: usize = match cells.checked_mul(channels) {
            Some(n) => n,
            None => {
                return Err(GridError::SizeMismatch);
            },
        };
        if given != len {
            return Err(GridError::SizeMismatch);
        }
        Ok(GridView { width, height, channels, data })
    }

    /// Number of cells in a row.
    pub fn width(&self) -> (w: usize)
        ensures
            w == self@.width,
            self@.wf(),
    {
        proof {
            use_type_invariant(self);
        }
        self.width
    }

    /// Number of rows.
    pub fn height(&self) -> (h: usize)
        ensures
            h == self@.height,
            self@.wf(),
    {
        proof {
            use_type_invariant(self);
        }
        self.height
    }

    /// Number of channel values per pixel of the source buffer.
    pub fn channels(&self) -> (c: usize)
        ensures
            c == self@.channels,
            self@.wf(),
    {
        proof {
            use_type_invariant(self);
        }
        self.channels
    }

    /// Reads the base code and the connectivity byte at `(x, y)`. A coordinate
    /// outside the grid, negative ones included, reads as `(EMPTY, 0)`.
    pub fn sample(&self, x: isize, y: isize) -> (cell: (u8, u8))
        ensures
            cell == self@.cell(x as int, y as int),
            !self@.contains(x as int, y as int) ==> cell == (EMPTY, 0u8),
    {
        if x < 0 || y < 0 {
            return (EMPTY, 0);
        }
        self.get(x as usize, y as usize)
    }

    /// Reads the cell at a coordinate that is not negative. Beyond the right
    /// and bottom edges it reads `(EMPTY, 0)`, as `sample` does.
    pub fn get(&self, x: usize, y: usize) -> (cell: (u8, u8))
        ensures
            cell == self@.cell(x as int, y as int),
            !self@.contains(x as int, y as int) ==> cell == (EMPTY, 0u8),
    {
        proof {
            use_type_invariant(self);
        }
        if x >= self.width || y >= self.height {
            return (EMPTY, 0);
        }
        proof {
            lemma_cell_in_buffer(self@, x as int, y as int);
            let cell_index = y as int * self.width as int + x as int;
            assert(0 <= y as int * self.width as int) by (nonlinear_arith);
            assert(cell_index <= cell_index * self.channels) by (nonlinear_arith)
                requires
                    0 <= cell_index,
                    self.channels >= 2,
            ;
            assert(self@.offset(x as int, y as int) == cell_index * self.channels);
            assert(self@.data.len() == self.data.len() <= usize::MAX);
        }
        let i: usize = (y * self.width + x) * self.channels;
        (self.data[i], self.data[i + 1])
    }

    /// Reads the connectivity bytes of the four cardinal neighbours of the
    /// cell at `(x, y)`.
    pub fn neighbors(&self, x: usize, y: usize) -> (n: Neighbors)
        ensures
            n == self@.around(x as int, y as int),
    {
        let up: u8 = if y > 0 {
            self.get(x, y - 1).1
        } else {
            0
        };
        let left: u8 = if x > 0 {
            self.get(x - 1, y).1
        } else {
            0
        };
        let right: u8 = if x < usize::MAX {
            self.get(x + 1, y).1
        } else {
            0
        };
        let down: u8 = if y < usize::MAX {
            self.get(x, y + 1).1
        } else {
            0
        };
        Neighbors { up, right, down, left }
    }

    /// Looks for a cell whose base code is outside the colour table, and
    /// returns the first one in reading order.
    pub fn find_malformed(&self) -> (found: Option<(usize, usize)>)
        ensures
            match found {
                Some((x, y)) => self@.first_malformed(x as int, y as int),
                None => self@.well_formed_cells(),
            },
    {
        let mut y: usize = 0;
        while y < self.height
            invariant
                y <= self.height,
                self.height == self@.height,
                self.width == self@.width,
                forall|x2: int, y2: int| y2 < y ==> !#[trigger] self@.malformed(x2, y2),
            decreases self.height - y,
        {
            let mut x: usize = 0;
            while x < self.width
                invariant
                    x <= self.width,
                    y < self.height,
                    self.height == self@.height,
                    self.width == self@.width,
                    forall|x2: int, y2: int|
                        precedes(x2, y2, x as int, y as int) ==> !#[trigger] self@.malformed(
                            x2,
                            y2,
                        ),
                decreases self.width - x,
            {
                let cell = self.get(x, y);
                if cell.0 > MAX_BASE_CODE {
                    return Some((x, y));
                }
                x = x + 1;
            }
            y = y + 1;
        }
        None
    }
}

/// A product with a factor of at least two is no smaller than the product
/// without it.
proof fn lemma_product_exceeds(w: int, h: int, ch: int)
    requires
        0 <= w,
        0 <= h,
        ch >= 2,
    ensures
        w * h * ch >= w * h,
{
    assert(w * h * ch >= w * h) by (nonlinear_arith)
        requires
            0 <= w,
            0 <= h,
            ch >= 2,
    ;
}

} // verus!
