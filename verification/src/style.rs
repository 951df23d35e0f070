//! The glyphs that draw the borders of a grid, one set for each style.
//!
//! A style and the role that a glyph plays in the border select one
//! character. Which role applies to which edge of which cell is decided where
//! the grid is laid out, not here.

use unicode_types::box_drawing::BoxDrawing;
use vstd::prelude::*;

verus! {

/// `unicode_types`' enumeration of Unicode's block of box drawings, with one
/// variant for each character. It has no fields, and its variants are known
/// by their names.
#[verifier::external_type_specification]
pub struct ExBoxDrawing(BoxDrawing);

/// The character that `unicode_types` gives for a box drawing.
pub uninterp spec fn box_char(drawing: BoxDrawing) -> char;

/// Calls `unicode_types`' conversion of a `BoxDrawing` into a `char`, a table
/// with one character for each variant. Nothing is proved of it: the result
/// is taken to be the character that `box_char` stands for.
#[verifier::external_body]
fn box_glyph(drawing: BoxDrawing) -> (glyph: char)
    ensures
        glyph == box_char(drawing),
{
    drawing.into()
}

/// The part that a glyph plays in the border of a grid.
#[derive(Clone, Copy, Debug, PartialEq, Eq, Structural)]
pub enum Role {
    /// The corner at the top left of the grid.
    TopLeft,
    /// The corner at the top right of the grid.
    TopRight,
    /// The corner at the bottom left of the grid.
    BottomLeft,
    /// The corner at the bottom right of the grid.
    BottomRight,
    /// A stretch of a horizontal line.
    Horizontal,
    /// A stretch of a vertical line.
    Vertical,
    /// Where a vertical line leaves the top edge downwards.
    TopJunction,
    /// Where a vertical line reaches the bottom edge.
    BottomJunction,
    /// Where a horizontal line leaves the left edge.
    LeftJunction,
    /// Where a horizontal line reaches the right edge.
    RightJunction,
    /// Where a horizontal and a vertical line cross.
    Cross,
}

/// The visual style of the borders.
#[derive(Clone, Copy, Debug, PartialEq, Eq, Structural)]
pub enum BordersStyle {
    /// No borders: every glyph is the character NUL, which takes no column.
    NoBorders,
    /// Blank borders: every glyph is a space.
    Plain,
    /// Borders in ASCII: `+`, `-` and `|`.
    Retro,
    /// Light lines with square corners.
    Thin,
    /// Light lines with round corners.
    Rounded,
    /// Heavy lines.
    Thick,
    /// Double lines.
    Double,
}

/// The light box drawing for a role.
pub open spec fn spec_light(role: Role) -> BoxDrawing {
    match role {
        Role::TopLeft => BoxDrawing::LightDownAndRight,
        Role::TopRight => BoxDrawing::LightDownAndLeft,
        Role::BottomLeft => BoxDrawing::LightUpAndRight,
        Role::BottomRight => BoxDrawing::LightUpAndLeft,
        Role::Horizontal => BoxDrawing::LightHorizontal,
        Role::Vertical => BoxDrawing::LightVertical,
        Role::TopJunction => BoxDrawing::LightDownAndHorizontal,
        Role::BottomJunction => BoxDrawing::LightUpAndHorizontal,
        Role::LeftJunction => BoxDrawing::LightVerticalAndRight,
        Role::RightJunction => BoxDrawing::LightVerticalAndLeft,
        Role::Cross => BoxDrawing::LightVerticalAndHorizontal,
    }
}

/// The light box drawing for a role, with arcs for the four corners.
pub open spec fn spec_rounded(role: Role) -> BoxDrawing {
    match role {
        Role::TopLeft => BoxDrawing::LightArcDownAndRight,
        Role::TopRight => BoxDrawing::LightArcDownAndLeft,
        Role::BottomLeft => BoxDrawing::LightArcUpAndRight,
        Role::BottomRight => BoxDrawing::LightArcUpAndLeft,
        _ => spec_light(role),
    }
}

/// The heavy box drawing for a role.
pub open spec fn spec_heavy(role: Role) -> BoxDrawing {
    match role {
        Role::TopLeft => BoxDrawing::HeavyDownAndRight,
        Role::TopRight => BoxDrawing::HeavyDownAndLeft,
        Role::BottomLeft => BoxDrawing::HeavyUpAndRight,
        Role::BottomRight => BoxDrawing::HeavyUpAndLeft,
        Role::Horizontal => BoxDrawing::HeavyHorizontal,
        Role::Vertical => BoxDrawing::HeavyVertical,
        Role::TopJunction => BoxDrawing::HeavyDownAndHorizontal,
        Role::BottomJunction => BoxDrawing::HeavyUpAndHorizontal,
        Role::LeftJunction => BoxDrawing::HeavyVerticalAndRight,
        Role::RightJunction => BoxDrawing::HeavyVerticalAndLeft,
        Role::Cross => BoxDrawing::HeavyVerticalAndHorizontal,
    }
}

/// The double box drawing for a role.
pub open spec fn spec_double(role: Role) -> BoxDrawing {
    match role {
        Role::TopLeft => BoxDrawing::DoubleDownAndRight,
        Role::TopRight => BoxDrawing::DoubleDownAndLeft,
        Role::BottomLeft => BoxDrawing::DoubleUpAndRight,
        Role::BottomRight => BoxDrawing::DoubleUpAndLeft,
        Role::Horizontal => BoxDrawing::DoubleHorizontal,
        Role::Vertical => BoxDrawing::DoubleVertical,
        Role::TopJunction => BoxDrawing::DoubleDownAndHorizontal,
        Role::BottomJunction => BoxDrawing::DoubleUpAndHorizontal,
        Role::LeftJunction => BoxDrawing::DoubleVerticalAndRight,
        Role::RightJunction => BoxDrawing::DoubleVerticalAndLeft,
        Role::Cross => BoxDrawing::DoubleVerticalAndHorizontal,
    }
}

/// The glyph of the ASCII style for a role.
pub open spec fn spec_retro(role: Role) -> char {
    match role {
        Role::Horizontal => '-',
        Role::Vertical => '|',
        _ => '+',
    }
}

/// The light box drawing for a role.
fn light(role: Role) -> (drawing: BoxDrawing)
    ensures
        drawing == spec_light(role),
{
    match role {
        Role::TopLeft => BoxDrawing::LightDownAndRight,
        Role::TopRight => BoxDrawing::LightDownAndLeft,
        Role::BottomLeft => BoxDrawing::LightUpAndRight,
        Role::BottomRight => BoxDrawing::LightUpAndLeft,
        Role::Horizontal => BoxDrawing::LightHorizontal,
        Role::Vertical => BoxDrawing::LightVertical,
        Role::TopJunction => BoxDrawing::LightDownAndHorizontal,
        Role::BottomJunction => BoxDrawing::LightUpAndHorizontal,
        Role::LeftJunction => BoxDrawing::LightVerticalAndRight,
        Role::RightJunction => BoxDrawing::LightVerticalAndLeft,
        Role::Cross => BoxDrawing::LightVerticalAndHorizontal,
    }
}

/// The light box drawing for a role, with arcs for the four corners.
fn rounded(role: Role) -> (drawing: BoxDrawing)
    ensures
        drawing == spec_rounded(role),
{
    match role {
        Role::TopLeft => BoxDrawing::LightArcDownAndRight,
        Role::TopRight => BoxDrawing::LightArcDownAndLeft,
        Role::BottomLeft => BoxDrawing::LightArcUpAndRight,
        Role::BottomRight => BoxDrawing::LightArcUpAndLeft,
        _ => light(role),
    }
}

/// The heavy box drawing for a role.
fn heavy(role: Role) -> (drawing: BoxDrawing)
    ensures
        drawing == spec_heavy(role),
{
    match role {
        Role::TopLeft => BoxDrawing::HeavyDownAndRight,
        Role::TopRight => BoxDrawing::HeavyDownAndLeft,
        Role::BottomLeft => BoxDrawing::HeavyUpAndRight,
        Role::BottomRight => BoxDrawing::HeavyUpAndLeft,
        Role::Horizontal => BoxDrawing::HeavyHorizontal,
        Role::Vertical => BoxDrawing::HeavyVertical,
        Role::TopJunction => BoxDrawing::HeavyDownAndHorizontal,
        Role::BottomJunction => BoxDrawing::HeavyUpAndHorizontal,
        Role::LeftJunction => BoxDrawing::HeavyVerticalAndRight,
        Role::RightJunction => BoxDrawing::HeavyVerticalAndLeft,
        Role::Cross => BoxDrawing::HeavyVerticalAndHorizontal,
    }
}

/// The double box drawing for a role.
fn double(role: Role) -> (drawing: BoxDrawing)
    ensures
        drawing == spec_double(role),
{
    match role {
        Role::TopLeft => BoxDrawing::DoubleDownAndRight,
        Role::TopRight => BoxDrawing::DoubleDownAndLeft,
        Role::BottomLeft => BoxDrawing::DoubleUpAndRight,
        Role::BottomRight => BoxDrawing::DoubleUpAndLeft,
        Role::Horizontal => BoxDrawing::DoubleHorizontal,
        Role::Vertical => BoxDrawing::DoubleVertical,
        Role::TopJunction => BoxDrawing::DoubleDownAndHorizontal,
        Role::BottomJunction => BoxDrawing::DoubleUpAndHorizontal,
        Role::LeftJunction => BoxDrawing::DoubleVerticalAndRight,
        Role::RightJunction => BoxDrawing::DoubleVerticalAndLeft,
        Role::Cross => BoxDrawing::DoubleVerticalAndHorizontal,
    }
}

impl BordersStyle {
    /// The glyph of this style for a role.
    ///
    /// Without borders every role is the character NUL, a mark of absence that
    /// takes no column. The plain style reserves the room of the border with a
    /// space. The ASCII style draws with `+`, `-` and `|`. The four other
    /// styles take their glyphs from Unicode's box drawings.
    pub open spec fn spec_glyph(&self, role: Role) -> char {
        match *self {
            BordersStyle::NoBorders => '\0',
            BordersStyle::Plain => ' ',
            BordersStyle::Retro => spec_retro(role),
            BordersStyle::Thin => box_char(spec_light(role)),
            BordersStyle::Rounded => box_char(spec_rounded(role)),
            BordersStyle::Thick => box_char(spec_heavy(role)),
            BordersStyle::Double => box_char(spec_double(role)),
        }
    }

    /// Does this style draw nothing at all?
    pub open spec fn spec_is_none(&self) -> bool {
        *self == BordersStyle::NoBorders
    }

    /// Does this style draw nothing at all?
    #[verifier::when_used_as_spec(spec_is_none)]
    pub fn is_none(&self) -> (absent: bool)
        ensures
            absent == self.spec_is_none(),
    {
        match *self {
            BordersStyle::NoBorders => true,
            _ => false,
        }
    }

    /// The glyph of this style for a role.
    #[verifier::when_used_as_spec(spec_glyph)]
    pub fn glyph(&self, role: Role) -> (glyph: char)
        ensures
            glyph == self.spec_glyph(role),
    {
        match *self {
            BordersStyle::NoBorders => '\0',
            BordersStyle::Plain => ' ',
            BordersStyle::Retro => match role {
                Role::Horizontal => '-',
                Role::Vertical => '|',
                _ => '+',
            },
            BordersStyle::Thin => box_glyph(light(role)),
            BordersStyle::Rounded => box_glyph(rounded(role)),
            BordersStyle::Thick => box_glyph(heavy(role)),
            BordersStyle::Double => box_glyph(double(role)),
        }
    }

    /// The corner at the top left of the grid.
    pub fn top_left_corner(&self) -> (glyph: char)
        ensures
            glyph == self.spec_glyph(Role::TopLeft),
    {
        self.glyph(Role::TopLeft)
    }

    /// The corner at the top right of the grid.
    pub fn top_right_corner(&self) -> (glyph: char)
        ensures
            glyph == self.spec_glyph(Role::TopRight),
    {
        self.glyph(Role::TopRight)
    }

    /// The corner at the bottom left of the grid.
    pub fn bottom_left_corner(&self) -> (glyph: char)
        ensures
            glyph == self.spec_glyph(Role::BottomLeft),
    {
        self.glyph(Role::BottomLeft)
    }

    /// The corner at the bottom right of the grid.
    pub fn bottom_right_corner(&self) -> (glyph: char)
        ensures
            glyph == self.spec_glyph(Role::BottomRight),
    {
        self.glyph(Role::BottomRight)
    }

    /// A stretch of a horizontal line.
    pub fn horizontal_border(&self) -> (glyph: char)
        ensures
            glyph == self.spec_glyph(Role::Horizontal),
    {
        self.glyph(Role::Horizontal)
    }

    /// Where a vertical line leaves the top edge downwards.
    pub fn top_intersection(&self) -> (glyph: char)
        ensures
            glyph == self.spec_glyph(Role::TopJunction),
    {
        self.glyph(Role::TopJunction)
    }

    /// Where a horizontal line leaves the left edge.
    pub fn left_intersection(&self) -> (glyph: char)
        ensures
            glyph == self.spec_glyph(Role::LeftJunction),
    {
        self.glyph(Role::LeftJunction)
    }

    /// Where a horizontal line reaches the right edge.
    pub fn right_intersection(&self) -> (glyph: char)
        ensures
            glyph == self.spec_glyph(Role::RightJunction),
    {
        self.glyph(Role::RightJunction)
    }

    /// Where a vertical line reaches the bottom edge.
    pub fn bottom_intersection(&self) -> (glyph: char)
        ensures
            glyph == self.spec_glyph(Role::BottomJunction),
    {
        self.glyph(Role::BottomJunction)
    }

    /// Where a horizontal and a vertical line cross.
    pub fn intersection(&self) -> (glyph: char)
        ensures
            glyph == self.spec_glyph(Role::Cross),
    {
        self.glyph(Role::Cross)
    }

    /// A stretch of a vertical line.
    pub fn vertical_border(&self) -> (glyph: char)
        ensures
            glyph == self.spec_glyph(Role::Vertical),
    {
        self.glyph(Role::Vertical)
    }
}

} // verus!
