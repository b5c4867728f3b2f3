//! The state of the view that is held in whole numbers, and what follows from
//! it: which cell a grid position hits, which cells a range covers, and how
//! each is painted.

use vstd::prelude::*;
use vstd::arithmetic::div_mod::lemma_fundamental_div_mod_converse;
use crate::category::{get_category_color, spec_category_color};
use crate::grid::{
    cell_codepoint, GridAddress, GRID_SIZE, MAX_CODEPOINT, MAX_PLANE, PLANE_SIZE,
};
use crate::ucd::scalar_value;

verus! {

/// The cell at column `grid_x` and row `grid_y` of the page of `plane`, or
/// `None` where the position lies off the page.
pub open spec fn spec_address_at(plane: u32, grid_x: int, grid_y: int) -> Option<GridAddress> {
    if 0 <= grid_x < 256 && 0 <= grid_y < 256 {
        Some(GridAddress { plane, row: grid_y as u32, col: grid_x as u32 })
    } else {
        None
    }
}

/// The code point of the cell at column `grid_x` and row `grid_y` of the page
/// of `plane`, or `None` where the position lies off the page.
pub open spec fn spec_hit(plane: u32, grid_x: int, grid_y: int) -> Option<u32> {
    match spec_address_at(plane, grid_x, grid_y) {
        Some(addr) => Some(addr.spec_codepoint() as u32),
        None => None,
    }
}

/// First cell of a visible range along one axis, from the index of the cell
/// under the canvas's near edge: never before the page.
pub open spec fn spec_range_start(first: int) -> int {
    if first < 0 {
        0
    } else {
        first
    }
}

/// End of a visible range along one axis, from the index one past the cell
/// under the canvas's far edge: kept on the page.
pub open spec fn spec_range_end(past: int) -> int {
    if past < 0 {
        0
    } else if past > 256 {
        256
    } else {
        past
    }
}

/// The cells that overlap the canvas: columns from `start_col` up to, not
/// including, `end_col`, and rows likewise. The ends never pass the page's
/// edge; a start at or past its end leaves the range empty.
#[derive(Clone, Copy, Debug)]
pub struct VisibleRange {
    start_col: u32,
    start_row: u32,
    end_col: u32,
    end_row: u32,
}

impl VisibleRange {
    #[verifier::type_invariant]
    spec fn on_page(&self) -> bool {
        self.end_col <= 256 && self.end_row <= 256
    }

    pub closed spec fn spec_start_col(&self) -> u32 {
        self.start_col
    }

    pub closed spec fn spec_start_row(&self) -> u32 {
        self.start_row
    }

    pub closed spec fn spec_end_col(&self) -> u32 {
        self.end_col
    }

    pub closed spec fn spec_end_row(&self) -> u32 {
        self.end_row
    }

    /// Columns in the range.
    pub open spec fn spec_width(&self) -> nat {
        if self.spec_start_col() < self.spec_end_col() {
            (self.spec_end_col() - self.spec_start_col()) as nat
        } else {
            0
        }
    }

    /// Rows in the range.
    pub open spec fn spec_height(&self) -> nat {
        if self.spec_start_row() < self.spec_end_row() {
            (self.spec_end_row() - self.spec_start_row()) as nat
        } else {
            0
        }
    }

    /// The range of cells under a canvas whose near edges lie in column
    /// `first_col` and row `first_row` and whose far edges end before column
    /// `past_col` and row `past_row`.
    pub fn new(first_col: i32, first_row: i32, past_col: i32, past_row: i32) -> (range: Self)
        ensures
            range.spec_start_col() == spec_range_start(first_col as int),
            range.spec_start_row() == spec_range_start(first_row as int),
            range.spec_end_col() == spec_range_end(past_col as int),
            range.spec_end_row() == spec_range_end(past_row as int),
    {
        VisibleRange {
            start_col: Self::start_of(first_col),
            start_row: Self::start_of(first_row),
            end_col: Self::end_of(past_col),
            end_row: Self::end_of(past_row),
        }
    }

    fn start_of(first: i32) -> (start: u32)
        ensures
            start == spec_range_start(first as int),
    {
        if first < 0 {
            0
        } else {
            first as u32
        }
    }

    fn end_of(past: i32) -> (end: u32)
        ensures
            end == spec_range_end(past as int),
    {
        if past < 0 {
            0
        } else if past > 256 {
            GRID_SIZE
        } else {
            past as u32
        }
    }

    pub fn start_col(&self) -> (col: u32)
        ensures
            col == self.spec_start_col(),
    {
        self.start_col
    }

    pub fn start_row(&self) -> (row: u32)
        ensures
            row == self.spec_start_row(),
    {
        self.start_row
    }

    pub fn end_col(&self) -> (col: u32)
        ensures
            col == self.spec_end_col(),
            col <= GRID_SIZE,
    {
        proof {
            use_type_invariant(self);
        }
        self.end_col
    }

    pub fn end_row(&self) -> (row: u32)
        ensures
            row == self.spec_end_row(),
            row <= GRID_SIZE,
    {
        proof {
            use_type_invariant(self);
        }
        self.end_row
    }
}

/// How one cell is painted.
#[derive(Clone, Copy, Debug)]
pub struct CellPaint {
    pub row: u32,
    pub col: u32,
    pub codepoint: u32,
    /// Fill of the cell.
    pub color: &'static str,
    /// The character to draw in the cell, if any.
    pub glyph: Option<char>,
    /// Whether the cell carries the mark of the selection.
    pub selected: bool,
}

/// The part of a view that is held in whole numbers: the plane shown, the
/// code point selected, and whether a drag is under way.
#[derive(Debug)]
pub struct UnicodeExplorer {
    plane: u32,
    dragging: bool,
    selected_codepoint: Option<u32>,
}

impl UnicodeExplorer {
    /// Every cell of the plane shown has a code point of 32 bits.
    #[verifier::type_invariant]
    spec fn plane_fits(&self) -> bool {
        self.plane < 0x10000
    }

    pub closed spec fn spec_plane(&self) -> u32 {
        self.plane
    }

    pub closed spec fn spec_selected(&self) -> Option<u32> {
        self.selected_codepoint
    }

    pub closed spec fn spec_dragging(&self) -> bool {
        self.dragging
    }

    /// The plane shown is a plane of Unicode. This holds of a new view and
    /// stays so until the view is centred on a value past the last code
    /// point.
    pub open spec fn wf(&self) -> bool {
        self.spec_plane() <= MAX_PLANE
    }

    /// How the cell at `row` and `col` of the plane shown is painted: filled
    /// in the colour of its code point's category, with its character where
    /// characters are drawn and the code point is one, and marked where it is
    /// the selection.
    pub open spec fn paints(&self, cell: CellPaint, row: int, col: int, glyphs: bool) -> bool {
        &&& cell.row == row
        &&& cell.col == col
        &&& cell.codepoint == cell_codepoint(self.spec_plane() as int, row, col)
        &&& cell.color@ == spec_category_color(cell.codepoint)
        &&& cell.glyph == if glyphs {
            scalar_value(cell.codepoint)
        } else {
            None
        }
        &&& cell.selected == (self.spec_selected() == Some(cell.codepoint))
    }

    /// A view of plane 0 with nothing selected and no drag under way.
    pub fn new() -> (view: Self)
        ensures
            view.spec_plane() == 0,
            view.spec_selected() is None,
            !view.spec_dragging(),
            view.wf(),
    {
        UnicodeExplorer { plane: 0, dragging: false, selected_codepoint: None }
    }

    /// Shows `plane` if it is a plane of Unicode; any other value is ignored.
    pub fn set_plane(&mut self, plane: u32)
        ensures
            final(self).spec_plane() == if plane <= MAX_PLANE {
                plane
            } else {
                old(self).spec_plane()
            },
            final(self).spec_selected() == old(self).spec_selected(),
            final(self).spec_dragging() == old(self).spec_dragging(),
            old(self).wf() ==> final(self).wf(),
    {
        if plane <= MAX_PLANE {
            self.plane = plane;
        }
    }

    pub fn get_plane(&self) -> (plane: u32)
        ensures
            plane == self.spec_plane(),
            plane < PLANE_SIZE,
    {
        proof {
            use_type_invariant(self);
        }
        self.plane
    }

    pub fn get_selected(&self) -> (selected: Option<u32>)
        ensures
            selected == self.spec_selected(),
    {
        self.selected_codepoint
    }

    pub fn is_dragging(&self) -> (dragging: bool)
        ensures
            dragging == self.spec_dragging(),
    {
        self.dragging
    }

    /// A drag begins.
    pub fn start_drag(&mut self)
        ensures
            final(self).spec_dragging(),
            final(self).spec_plane() == old(self).spec_plane(),
            final(self).spec_selected() == old(self).spec_selected(),
    {
        proof {
            use_type_invariant(&*self);
        }
        self.dragging = true;
    }

    /// The drag, if any, ends.
    pub fn end_drag(&mut self)
        ensures
            !final(self).spec_dragging(),
            final(self).spec_plane() == old(self).spec_plane(),
            final(self).spec_selected() == old(self).spec_selected(),
    {
        proof {
            use_type_invariant(&*self);
        }
        self.dragging = false;
    }

    /// The cell of the plane shown at column `grid_x` and row `grid_y`, or
    /// `None` where that position lies off the page.
    pub fn address_at(&self, grid_x: i32, grid_y: i32) -> (addr: Option<GridAddress>)
        ensures
            addr == spec_address_at(self.spec_plane(), grid_x as int, grid_y as int),
            addr matches Some(a) ==> a.is_cell() && (a.wf() <==> self.wf()),
    {
        proof {
            use_type_invariant(self);
        }
        if grid_x >= 0 && grid_x < 256 && grid_y >= 0 && grid_y < 256 {
            Some(GridAddress { plane: self.plane, row: grid_y as u32, col: grid_x as u32 })
        } else {
            None
        }
    }

    /// A click at column `grid_x` and row `grid_y`: on the page it selects the
    /// cell's code point and returns it; off the page it clears the selection
    /// and returns `None`.
    pub fn click(&mut self, grid_x: i32, grid_y: i32) -> (hit: Option<u32>)
        ensures
            hit == spec_hit(old(self).spec_plane(), grid_x as int, grid_y as int),
            hit is Some <==> 0 <= grid_x < 256 && 0 <= grid_y < 256,
            final(self).spec_selected() == hit,
            final(self).spec_plane() == old(self).spec_plane(),
            final(self).spec_dragging() == old(self).spec_dragging(),
    {
        let hit = match self.address_at(grid_x, grid_y) {
            Some(addr) => Some(addr.codepoint()),
            None => None,
        };
        proof {
            use_type_invariant(&*self);
        }
        self.selected_codepoint = hit;
        hit
    }

    /// Shows the plane of `codepoint` and returns its cell, which the caller
    /// moves to the middle of the canvas. The selection stays as it is. A
    /// value past the last code point of Unicode has a cell past the last
    /// plane, and that plane is shown.
    pub fn center_on(&mut self, codepoint: u32) -> (addr: GridAddress)
        ensures
            addr == GridAddress::spec_from_codepoint(codepoint),
            addr.is_cell(),
            addr.spec_codepoint() == codepoint,
            final(self).spec_plane() == addr.plane,
            final(self).wf() <==> codepoint <= MAX_CODEPOINT,
            final(self).spec_selected() == old(self).spec_selected(),
            final(self).spec_dragging() == old(self).spec_dragging(),
    {
        let addr = GridAddress::from_codepoint(codepoint);
        self.plane = addr.plane;
        addr
    }

    /// How the cell at `row` and `col` of the plane shown is painted, with its
    /// character drawn if `glyphs` is set.
    pub fn paint_cell(&self, row: u32, col: u32, glyphs: bool) -> (cell: CellPaint)
        requires
            row < GRID_SIZE,
            col < GRID_SIZE,
        ensures
            self.paints(cell, row as int, col as int, glyphs),
    {
        proof {
            use_type_invariant(self);
        }
        let codepoint: u32 = self.plane * PLANE_SIZE + row * GRID_SIZE + col;
        let glyph = if glyphs {
            char::from_u32(codepoint)
        } else {
            None
        };
        let selected = match self.selected_codepoint {
            Some(cp) => cp == codepoint,
            None => false,
        };
        CellPaint { row, col, codepoint, color: get_category_color(codepoint), glyph, selected }
    }

    /// What is painted for the cells of `range`, row by row and within a row
    /// column by column; characters are drawn if `glyphs` is set.
    pub fn render(&self, range: &VisibleRange, glyphs: bool) -> (cells: Vec<CellPaint>)
        ensures
            cells.len() == range.spec_height() * range.spec_width(),
            forall|i: int|
                0 <= i < cells.len() ==> self.paints(
                    #[trigger] cells[i],
                    range.spec_start_row() + i / (range.spec_width() as int),
                    range.spec_start_col() + i % (range.spec_width() as int),
                    glyphs,
                ),
    {
        let mut cells: Vec<CellPaint> = Vec::new();
        let start_row: u32 = range.start_row();
        let start_col: u32 = range.start_col();
        let end_row: u32 = range.end_row();
        let end_col: u32 = range.end_col();
        if start_row >= end_row || start_col >= end_col {
            assert(range.spec_height() * range.spec_width() == 0) by (nonlinear_arith)
                requires
                    range.spec_height() == 0 || range.spec_width() == 0,
            ;
            return cells;
        }
        let ghost width: int = range.spec_width() as int;
        let mut row: u32 = start_row;
        while row < end_row
            invariant
                start_row <= row <= end_row <= 256,
                start_col < end_col <= 256,
                width == end_col - start_col,
                cells.len() == (row - start_row) * width,
                forall|i: int|
                    0 <= i < cells.len() ==> self.paints(
                        #[trigger] cells[i],
                        start_row + i / width,
                        start_col + i % width,
                        glyphs,
                    ),
            decreases end_row - row,
        {
            let mut col: u32 = start_col;
            while col < end_col
                invariant
                    start_row <= row < end_row <= 256,
                    start_col <= col <= end_col <= 256,
                    width == end_col - start_col,
                    cells.len() == (row - start_row) * width + (col - start_col),
                    forall|i: int|
                        0 <= i < cells.len() ==> self.paints(
                            #[trigger] cells[i],
                            start_row + i / width,
                            start_col + i % width,
                            glyphs,
                        ),
                decreases end_col - col,
            {
                let cell = self.paint_cell(row, col, glyphs);
                proof {
                    let i = cells.len() as int;
                    lemma_fundamental_div_mod_converse(
                        i,
                        width,
                        (row - start_row) as int,
                        (col - start_col) as int,
                    );
                    assert((row - start_row) * width <= 255 * 256) by (nonlinear_arith)
                        requires
                            0 <= row - start_row <= 255,
                            0 < width <= 256,
                    ;
                }
                cells.push(cell);
                col = col + 1;
            }
            proof {
                assert((row - start_row) * width + width == (row + 1 - start_row) * width)
                    by (nonlinear_arith);
            }
            row = row + 1;
        }
        cells
    }
}

/// A click on any cell of the page of a plane of Unicode hits that cell: the
/// address found at its column and row is the cell's, and the code point hit
/// splits back into the plane, the row and the column.
pub proof fn lemma_click_round_trip(plane: u32, row: u32, col: u32)
    requires
        plane <= 16,
        row < 256,
        col < 256,
    ensures
        spec_address_at(plane, col as int, row as int) == Some(GridAddress { plane, row, col }),
        spec_hit(plane, col as int, row as int) matches Some(cp)
            && GridAddress::spec_from_codepoint(cp) == (GridAddress { plane, row, col }),
{
}

/// After the view is centred on a code point, a click on the cell that was
/// returned hits that code point: with the plane that is then shown, the
/// column and the row of the code point's address lead back to it.
pub proof fn lemma_center_then_click(codepoint: u32)
    ensures
        ({
            let addr = GridAddress::spec_from_codepoint(codepoint);
            spec_hit(addr.plane, addr.col as int, addr.row as int) == Some(codepoint)
        }),
{
}

/// A click off the page hits nothing, whatever the plane.
pub proof fn lemma_click_miss(plane: u32, grid_x: int, grid_y: int)
    requires
        !(0 <= grid_x < 256 && 0 <= grid_y < 256),
    ensures
        spec_hit(plane, grid_x, grid_y) is None,
{
}

} // verus!
