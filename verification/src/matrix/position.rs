//! Where a cell lies within the rectangle of the grid.

use vstd::prelude::*;

verus! {

/// The position of a cell relative to the four edges of the grid.
///
/// The variants name the exact position, `BottomLeft` for one. The four
/// predicates tell whether that position is part of a given edge:
/// `BottomLeft` is part of both `bottom()` and `left()`.
#[derive(Clone, Copy, Debug, PartialEq, Eq, Structural)]
pub enum Position {
    Top,
    Left,
    Right,
    Bottom,
    TopLeft,
    TopRight,
    BottomLeft,
    BottomRight,
    Middle,
}

impl Position {
    /// Is it part of the top row?
    pub open spec fn spec_top(&self) -> bool {
        *self == Position::TopLeft || *self == Position::Top || *self == Position::TopRight
    }

    /// Is it part of the leftmost column?
    pub open spec fn spec_left(&self) -> bool {
        *self == Position::TopLeft || *self == Position::Left || *self == Position::BottomLeft
    }

    /// Is it part of the rightmost column?
    pub open spec fn spec_right(&self) -> bool {
        *self == Position::TopRight || *self == Position::Right || *self
            == Position::BottomRight
    }

    /// Is it part of the bottom row?
    pub open spec fn spec_bottom(&self) -> bool {
        *self == Position::BottomLeft || *self == Position::Bottom || *self
            == Position::BottomRight
    }

    /// Is it one of the four corners?
    pub open spec fn is_corner(&self) -> bool {
        *self == Position::TopLeft || *self == Position::TopRight || *self
            == Position::BottomLeft || *self == Position::BottomRight
    }

    /// Is it on exactly one edge?
    pub open spec fn is_edge(&self) -> bool {
        *self == Position::Top || *self == Position::Left || *self == Position::Right || *self
            == Position::Bottom
    }

    /// Is it part of the top row?
    #[verifier::when_used_as_spec(spec_top)]
    pub fn top(&self) -> (on_edge: bool)
        ensures
            on_edge == self.spec_top(),
    {
        match *self {
            Position::TopLeft => true,
            Position::Top => true,
            Position::TopRight => true,
            _ => false,
        }
    }

    /// Is it part of the leftmost column?
    #[verifier::when_used_as_spec(spec_left)]
    pub fn left(&self) -> (on_edge: bool)
        ensures
            on_edge == self.spec_left(),
    {
        match *self {
            Position::TopLeft => true,
            Position::Left => true,
            Position::BottomLeft => true,
            _ => false,
        }
    }

    /// Is it part of the rightmost column?
    #[verifier::when_used_as_spec(spec_right)]
    pub fn right(&self) -> (on_edge: bool)
        ensures
            on_edge == self.spec_right(),
    {
        match *self {
            Position::TopRight => true,
            Position::Right => true,
            Position::BottomRight => true,
            _ => false,
        }
    }

    /// Is it part of the bottom row?
    #[verifier::when_used_as_spec(spec_bottom)]
    pub fn bottom(&self) -> (on_edge: bool)
        ensures
            on_edge == self.spec_bottom(),
    {
        match *self {
            Position::BottomLeft => true,
            Position::Bottom => true,
            Position::BottomRight => true,
            _ => false,
        }
    }
}

} // verus!
