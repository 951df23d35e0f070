//! A grid cell: a value together with the colours it is shown in.
//!
//! The value can be of any type that can be cloned and displayed as text. The
//! foreground and the background colour are set for each cell on its own.

use vstd::prelude::*;

verus! {

/// A foreground and a background colour, each an index into the terminal's
/// palette of 256 colours.
#[derive(Clone, Copy, Debug, PartialEq, Eq, Structural)]
pub struct AnsiColor {
    pub fg: u8,
    pub bg: u8,
}

impl AnsiColor {
    /// Light text on a dark background: the colours of the borders.
    pub open spec fn plain() -> AnsiColor {
        AnsiColor { fg: 7, bg: 0 }
    }
}

impl Default for AnsiColor {
    fn default() -> (color: AnsiColor)
        ensures
            color == AnsiColor::plain(),
    {
        AnsiColor { fg: 7, bg: 0 }
    }
}

/// A value and the colours it is shown in.
#[derive(Debug, PartialEq)]
pub struct Cell<T> where T: Clone, T: std::fmt::Display {
    pub value: T,
    pub color: AnsiColor,
}

impl<T> Cell<T> where T: Clone, T: std::fmt::Display {
    /// A cell that shows `val` in the foreground colour `fg` on the background
    /// colour `bg`.
    pub fn new(val: T, fg: u8, bg: u8) -> (cell: Cell<T>)
        ensures
            cell.value == val,
            cell.color == (AnsiColor { fg, bg }),
    {
        Cell { value: val, color: AnsiColor { fg: fg, bg: bg } }
    }
}

impl<T> Clone for Cell<T> where T: Clone, T: std::fmt::Display {
    /// The copy has the colours of the cell and a clone of its value.
    fn clone(&self) -> (copy: Cell<T>)
        ensures
            copy.color == self.color,
            cloned(self.value, copy.value),
    {
        Cell { value: self.value.clone(), color: self.color }
    }
}

} // verus!
