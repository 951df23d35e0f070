//! Renders a two-dimensional grid of labelled, coloured cells as a table of
//! characters for a terminal.
//!
//! A [`matrix::Matrix`] stores the cells in row-major order, a [`Format`] gives
//! every cell the same width and height, and a [`style::BordersStyle`] selects
//! the glyphs drawn between the cells. A [`MatrixDisplay`] lays the grid out as
//! a sequence of [`fragment::Fragment`]s, each a span of text with one pair of
//! colours, and maps a cursor position back to the cell under it.

pub mod cell;
pub mod cursor;
pub mod display;
pub mod error;
pub mod fragment;
pub mod layout;
pub mod matrix;
pub mod pad;
pub mod style;

pub use crate::cursor::cursor_to_index;
pub use crate::display::CellDisplay;
pub use crate::display::Format;
pub use crate::display::MatrixDisplay;
