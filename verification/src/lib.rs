//! Renders a compact grid of encoded cells into an RGB raster image.
//!
//! Every cell of the grid carries a base material code and a connectivity
//! byte. The compositor expands each cell into a square tile of pixels and
//! draws a border along every tile edge that the cell does not declare open,
//! with a corner rule that consults the two orthogonal neighbours.
//!
//! The modules, from the bottom up:
//!
//! - `color`: the colour tables;
//! - `connectivity`: the packed connectivity byte;
//! - `grid`: the source buffer, read as a grid of cells;
//! - `border`: the rule that decides the colour of one pixel of a tile;
//! - `image`: the output buffer;
//! - `compositor`: `render`, from a grid to an image;
//! - `laws`: what holds of every rendered image;
//! - `codec`: the outside codecs for base64 and PNG;
//! - `world`: from the image text of a world to the PNG file of its
//!   rendering.

pub mod border;
pub mod codec;
pub mod color;
pub mod compositor;
pub mod connectivity;
pub mod grid;
pub mod image;
pub mod laws;
pub mod world;

pub use crate::color::Color;
pub use crate::compositor::render;
pub use crate::compositor::RenderError;
pub use crate::grid::GridView;
pub use crate::image::OutputBuffer;
pub use crate::world::render_world;
pub use crate::world::EncodeResult;
pub use crate::world::WorldError;
