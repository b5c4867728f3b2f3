//! Addresses of cells: a plane, and a row and a column on that plane's page.

use vstd::prelude::*;

verus! {

/// Cells along one edge of a plane's page.
pub const GRID_SIZE: u32 = 256;

/// Code points on one plane.
pub const PLANE_SIZE: u32 = 0x10000;

/// The last plane of Unicode.
pub const MAX_PLANE: u32 = 16;

/// The last code point of Unicode.
pub const MAX_CODEPOINT: u32 = 0x10FFFF;

/// The code point of the cell at `row` and `col` of `plane`.
pub open spec fn cell_codepoint(plane: int, row: int, col: int) -> int {
    plane * 0x10000 + row * 256 + col
}

/// A cell of the grid.
#[derive(Clone, Copy, Debug, PartialEq, Eq, Structural)]
pub struct GridAddress {
    pub plane: u32,
    pub row: u32,
    pub col: u32,
}

impl GridAddress {
    /// The cell lies on a page, and its code point fits in 32 bits.
    pub open spec fn is_cell(&self) -> bool {
        &&& self.plane < 0x10000
        &&& self.row < 256
        &&& self.col < 256
    }

    /// The cell lies on a page of one of the planes of Unicode.
    pub open spec fn wf(&self) -> bool {
        &&& self.is_cell()
        &&& self.plane <= 16
    }

    pub open spec fn spec_codepoint(&self) -> int {
        cell_codepoint(self.plane as int, self.row as int, self.col as int)
    }

    /// The address of the cell that holds `codepoint`.
    pub open spec fn spec_from_codepoint(codepoint: u32) -> GridAddress {
        GridAddress {
            plane: codepoint / 0x10000,
            row: (codepoint % 0x10000) / 256,
            col: codepoint % 256,
        }
    }

    /// The code point that the cell holds.
    pub fn codepoint(&self) -> (cp: u32)
        requires
            self.is_cell(),
        ensures
            cp == self.spec_codepoint(),
            self.wf() <==> cp <= MAX_CODEPOINT,
    {
        self.plane * PLANE_SIZE + self.row * GRID_SIZE + self.col
    }

    /// Splits a code point into plane, row and column. Every 32-bit value has
    /// a cell; those above the last code point of Unicode lie past the last
    /// plane.
    pub fn from_codepoint(codepoint: u32) -> (addr: GridAddress)
        ensures
            addr == Self::spec_from_codepoint(codepoint),
            addr.is_cell(),
            addr.spec_codepoint() == codepoint,
            addr.wf() <==> codepoint <= MAX_CODEPOINT,
    {
        let local: u32 = codepoint % PLANE_SIZE;
        GridAddress { plane: codepoint / PLANE_SIZE, row: local / GRID_SIZE, col: local % GRID_SIZE }
    }
}

/// Splitting the code point of a cell gives the cell back: for every plane up
/// to the last one and every row and column of its page, the address read off
/// the cell's code point is that plane, row and column.
pub proof fn lemma_address_round_trip(plane: u32, row: u32, col: u32)
    requires
        plane <= 16,
        row < 256,
        col < 256,
    ensures
        0 <= cell_codepoint(plane as int, row as int, col as int) <= MAX_CODEPOINT,
        GridAddress::spec_from_codepoint(
            cell_codepoint(plane as int, row as int, col as int) as u32,
        ) == (GridAddress { plane, row, col }),
{
}

/// Composing what a code point was split into gives the code point back, for
/// every 32-bit value.
pub proof fn lemma_codepoint_round_trip(codepoint: u32)
    ensures
        GridAddress::spec_from_codepoint(codepoint).is_cell(),
        GridAddress::spec_from_codepoint(codepoint).spec_codepoint() == codepoint,
        GridAddress::spec_from_codepoint(codepoint).wf() <==> codepoint <= MAX_CODEPOINT,
{
}

/// Two cells with the same code point are the same cell.
pub proof fn lemma_codepoint_injective(a: GridAddress, b: GridAddress)
    requires
        a.is_cell(),
        b.is_cell(),
        a.spec_codepoint() == b.spec_codepoint(),
    ensures
        a == b,
{
}

} // verus!
