//! The ways in which building or laying out a grid can be refused.

use vstd::prelude::*;

verus! {

/// A grid whose shape cannot be laid out.
#[derive(Clone, Copy, Debug, PartialEq, Eq)]
pub enum ConfigError {
    /// The grid was given no columns.
    ZeroColumns,
    /// The number of cells is not a multiple of the number of columns.
    RaggedRows,
}

/// A piece of text that does not fit the slot it has to be centred in.
#[derive(Clone, Copy, Debug, PartialEq, Eq)]
pub enum SizeError {
    /// The content is wider than the slot.
    ContentTooWide,
    /// The filler glyph takes more than one column.
    FillTooWide,
}

/// A coordinate that names no cell.
#[derive(Clone, Copy, Debug, PartialEq, Eq)]
pub enum IndexError {
    /// A cursor coordinate was zero; the screen is counted from one.
    ZeroCursor,
    /// The column or the row lies outside the grid.
    OutOfBounds,
}

} // verus!
