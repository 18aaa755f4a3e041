//! Decoding of the packed connectivity byte.
//!
//! Bits 0 to 3 say on which sides a cell is open: up, right, down, left.
//! Bit 6 selects the heavy connector kind; without it the connector is light,
//! whatever bit 7 holds. The byte zero stands for a cell without any
//! directional structure.

use vstd::prelude::*;

verus! {

/// Bit that declares a cell open toward the cell above.
pub const OPEN_UP: u8 = 1;

/// Bit that declares a cell open toward the cell on its right.
pub const OPEN_RIGHT: u8 = 2;

/// Bit that declares a cell open toward the cell below.
pub const OPEN_DOWN: u8 = 4;

/// Bit that declares a cell open toward the cell on its left.
pub const OPEN_LEFT: u8 = 8;

/// Bit that selects the heavy connector kind.
pub const HEAVY_BIT: u8 = 64;

/// The two visual kinds of a connector.
#[derive(Copy, Clone, Debug, PartialEq, Eq, Structural)]
pub enum ConnectorKind {
    Heavy,
    Light,
}

/// A decoded connectivity byte.
#[derive(Copy, Clone, Debug, PartialEq, Eq, Structural)]
pub struct Connectivity {
    pub kind: ConnectorKind,
    pub open_up: bool,
    pub open_right: bool,
    pub open_down: bool,
    pub open_left: bool,
}

/// Whether a connectivity byte declares its cell open toward the cell above.
pub open spec fn opens_up(byte: u8) -> bool {
    byte & OPEN_UP != 0
}

/// Whether a connectivity byte declares its cell open toward the right.
pub open spec fn opens_right(byte: u8) -> bool {
    byte & OPEN_RIGHT != 0
}

/// Whether a connectivity byte declares its cell open toward the cell below.
pub open spec fn opens_down(byte: u8) -> bool {
    byte & OPEN_DOWN != 0
}

/// Whether a connectivity byte declares its cell open toward the left.
pub open spec fn opens_left(byte: u8) -> bool {
    byte & OPEN_LEFT != 0
}

/// The kind that a connectivity byte selects: heavy exactly when bit 6 is set.
pub open spec fn kind_of(byte: u8) -> ConnectorKind {
    if byte & HEAVY_BIT != 0 {
        ConnectorKind::Heavy
    } else {
        ConnectorKind::Light
    }
}

/// Whether a connectivity byte gives its cell a directional structure.
pub open spec fn is_connector(byte: u8) -> bool {
    byte != 0
}

/// The meaning of a connectivity byte.
pub open spec fn decoded(byte: u8) -> Connectivity {
    Connectivity {
        kind: kind_of(byte),
        open_up: opens_up(byte),
        open_right: opens_right(byte),
        open_down: opens_down(byte),
        open_left: opens_left(byte),
    }
}

/// Decodes a connectivity byte into its kind and its four open flags.
pub fn decode(byte: u8) -> (c: Connectivity)
    ensures
        c == decoded(byte),
{
    Connectivity {
        kind: if byte & HEAVY_BIT != 0 {
            ConnectorKind::Heavy
        } else {
            ConnectorKind::Light
        },
        open_up: byte & OPEN_UP != 0,
        open_right: byte & OPEN_RIGHT != 0,
        open_down: byte & OPEN_DOWN != 0,
        open_left: byte & OPEN_LEFT != 0,
    }
}

/// The byte zero, which a neighbour beyond the edge of the grid reads as,
/// opens no side.
pub proof fn lemma_zero_opens_nothing()
    ensures
        decoded(0) == (Connectivity {
            kind: ConnectorKind::Light,
            open_up: false,
            open_right: false,
            open_down: false,
            open_left: false,
        }),
{
    assert(0u8 & 64u8 == 0) by (bit_vector);
    assert(0u8 & 1u8 == 0) by (bit_vector);
    assert(0u8 & 2u8 == 0) by (bit_vector);
    assert(0u8 & 4u8 == 0) by (bit_vector);
    assert(0u8 & 8u8 == 0) by (bit_vector);
}

} // verus!
