//! The fixed colour tables: one colour per base material code and one per
//! connector kind.

use vstd::prelude::*;
use crate::connectivity::ConnectorKind;
use crate::connectivity::HEAVY_BIT;
use crate::connectivity::kind_of;

verus! {

/// An RGB triple: red, green, blue.
#[derive(Copy, Clone, Debug, PartialEq, Eq, Structural)]
pub struct Color(pub u8, pub u8, pub u8);

impl Default for Color {
    /// Black.
    fn default() -> (c: Color)
        ensures
            c == Color(0, 0, 0),
    {
        Color(0, 0, 0)
    }
}

/// Base code of the solid material. Its colour is also the border colour.
pub const SOLID: u8 = 0;

/// Base code of the empty material, "nothing". Its colour is the background.
pub const EMPTY: u8 = 1;

/// Base code of the thin solid material.
pub const THIN_SOLID: u8 = 2;

/// Base code of the positive terminal.
pub const POSITIVE: u8 = 3;

/// Base code of the negative terminal.
pub const NEGATIVE: u8 = 4;

/// Base code of the bridge.
pub const BRIDGE: u8 = 5;

/// Base code of the ribbon.
pub const RIBBON: u8 = 6;

/// Base code of the ribbon bridge.
pub const RIBBON_BRIDGE: u8 = 7;

/// The largest base code that the colour table covers.
pub const MAX_BASE_CODE: u8 = 7;

/// The colour table for base codes, as a mathematical function. Codes above
/// `MAX_BASE_CODE` are outside the table; the function maps them to the
/// colour of the last entry only so that it is total.
pub open spec fn base_color(code: u8) -> Color {
    if code == SOLID {
        Color(9, 25, 27)
    } else if code == EMPTY {
        Color(255, 255, 255)
    } else if code == THIN_SOLID {
        Color(181, 181, 181)
    } else if code == POSITIVE {
        Color(92, 204, 92)
    } else if code == NEGATIVE {
        Color(214, 87, 41)
    } else if code == BRIDGE {
        Color(26, 126, 213)
    } else if code == RIBBON {
        Color(185, 60, 174)
    } else {
        Color(108, 30, 217)
    }
}

/// The colour table for connector kinds, as a mathematical function.
pub open spec fn kind_color(kind: ConnectorKind) -> Color {
    match kind {
        ConnectorKind::Heavy => Color(147, 40, 189),
        ConnectorKind::Light => Color(216, 135, 248),
    }
}

/// The colour drawn on every closed tile edge.
pub open spec fn border_color() -> Color {
    base_color(SOLID)
}

/// The colour of the background and of every empty cell.
pub open spec fn background_color() -> Color {
    base_color(EMPTY)
}

/// Looks up the colour of a base code.
pub fn color_of_base(code: u8) -> (c: Color)
    requires
        code <= MAX_BASE_CODE,
    ensures
        c == base_color(code),
{
    match code {
        0 => Color(9, 25, 27),
        1 => Color(255, 255, 255),
        2 => Color(181, 181, 181),
        3 => Color(92, 204, 92),
        4 => Color(214, 87, 41),
        5 => Color(26, 126, 213),
        6 => Color(185, 60, 174),
        _ => Color(108, 30, 217),
    }
}

/// Looks up the colour of a connector kind.
pub fn color_of_kind(kind: ConnectorKind) -> (c: Color)
    ensures
        c == kind_color(kind),
{
    match kind {
        ConnectorKind::Heavy => Color(147, 40, 189),
        ConnectorKind::Light => Color(216, 135, 248),
    }
}

/// The colour of a connector cell, straight from its connectivity byte.
pub fn color_of_s(sv: u8) -> (c: Color)
    ensures
        c == kind_color(kind_of(sv)),
{
    if sv & HEAVY_BIT != 0 {
        Color(147, 40, 189)
    } else {
        Color(216, 135, 248)
    }
}

} // verus!
