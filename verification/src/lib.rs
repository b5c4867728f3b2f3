//! A browser for the Unicode code space, laid out as one 256 x 256 page of
//! cells per plane.
//!
//! The crate holds the part of the browser that works on whole numbers: the
//! addressing of cells, the state of the view (plane, selection, dragging),
//! what is painted for a range of cells, the search by address or by name,
//! and the description of a code point. Pixel arithmetic and the drawing
//! surface belong to the caller, which hands over cell indices.

pub mod category;
pub mod grid;
pub mod info;
pub mod search;
pub mod ucd;
pub mod viewport;

pub use category::{get_category_color, Category};
pub use grid::{GridAddress, GRID_SIZE, MAX_CODEPOINT, MAX_PLANE, PLANE_SIZE};
pub use info::get_char_info;
pub use search::search_characters;
pub use viewport::{CellPaint, UnicodeExplorer, VisibleRange};
