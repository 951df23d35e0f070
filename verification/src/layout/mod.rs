//! What a layout is, as a value of mathematics.
//!
//! A layout is a sequence of fragments: for each cell of each line the glyph
//! on its left, the centred content and what closes it on the right. The
//! functions here say which fragments a cell, a line, a row and the whole grid
//! give, and when a grid cannot be laid out. The display computes them.

pub mod lines;

use crate::cell::AnsiColor;
use crate::error::SizeError;
use crate::fragment::ansi_text;
use crate::fragment::FragmentView;
use crate::matrix::classify;
use crate::matrix::linear_index;
use crate::matrix::position::Position;
use crate::pad::glyph_cols;
use crate::pad::pad_after;
use crate::pad::pad_before;
use crate::pad::padded;
use crate::pad::padded_result;
use crate::pad::text_cols;
use crate::style::BordersStyle;
use crate::style::Role;
use vstd::prelude::*;

verus! {

/// The glyph on the left of a cell: `left` on the left edge of the grid,
/// `middle` elsewhere.
pub open spec fn left_border(left: char, middle: char, pos: Position) -> Seq<char> {
    seq![if pos.left() { left } else { middle }]
}

/// What closes a cell on its right. Only a cell on the right edge of the grid
/// has a glyph there, and after it the line breaks. The break is left out in
/// one case alone: without borders, after empty content.
pub open spec fn right_border(
    style: BordersStyle,
    right: char,
    content: Seq<char>,
    pos: Position,
) -> Seq<char> {
    if !pos.right() {
        Seq::empty()
    } else if !style.is_none() || content.len() > 0 {
        seq![right, '\r', '\n']
    } else {
        seq![right]
    }
}

/// One line of one cell: the glyph on its left in the plain colours, the
/// content centred with the filler in the colours given, and what closes it on
/// the right in the plain colours.
pub open spec fn cell_fragments(
    style: BordersStyle,
    left: char,
    middle: char,
    right: char,
    fill: char,
    content: Seq<char>,
    pos: Position,
    width: int,
    color: AnsiColor,
) -> Seq<FragmentView> {
    seq![
        FragmentView { text: left_border(left, middle, pos), color: AnsiColor::plain() },
        FragmentView { text: padded(width, content, fill), color: color },
        FragmentView { text: right_border(style, right, content, pos), color: AnsiColor::plain() },
    ]
}

/// The fragments of a line of a cell, where its content can be centred with
/// its filler, or else the reason why it cannot.
pub open spec fn centred_or(
    width: int,
    content: Seq<char>,
    fill: char,
    fragments: Seq<FragmentView>,
) -> Result<Seq<FragmentView>, SizeError> {
    match padded_result(width, content, fill) {
        Ok(_) => Ok(fragments),
        Err(e) => Err(e),
    }
}

/// One line of one cell, or the reason why its content cannot be centred.
pub open spec fn cell_result(
    style: BordersStyle,
    left: char,
    middle: char,
    right: char,
    fill: char,
    content: Seq<char>,
    pos: Position,
    width: int,
    color: AnsiColor,
) -> Result<Seq<FragmentView>, SizeError> {
    centred_or(
        width,
        content,
        fill,
        cell_fragments(style, left, middle, right, fill, content, pos, width, color),
    )
}

/// The border above a cell. On the top edge of the grid it is made of corners
/// and of junctions that point down; elsewhere it is the border shared with
/// the row above, made of junctions and crosses.
pub open spec fn top_cell_fragments(style: BordersStyle, pos: Position, width: int) -> Seq<
    FragmentView,
> {
    if pos.top() {
        cell_fragments(
            style,
            style.glyph(Role::TopLeft),
            style.glyph(Role::TopJunction),
            style.glyph(Role::TopRight),
            style.glyph(Role::Horizontal),
            Seq::empty(),
            pos,
            width,
            AnsiColor::plain(),
        )
    } else {
        cell_fragments(
            style,
            style.glyph(Role::LeftJunction),
            style.glyph(Role::Cross),
            style.glyph(Role::RightJunction),
            style.glyph(Role::Horizontal),
            Seq::empty(),
            pos,
            width,
            AnsiColor::plain(),
        )
    }
}

/// The border below a cell: nothing, unless the cell lies on the bottom edge
/// of the grid.
pub open spec fn bottom_cell_fragments(style: BordersStyle, pos: Position, width: int) -> Seq<
    FragmentView,
> {
    if pos.bottom() {
        cell_fragments(
            style,
            style.glyph(Role::BottomLeft),
            style.glyph(Role::BottomJunction),
            style.glyph(Role::BottomRight),
            style.glyph(Role::Horizontal),
            Seq::empty(),
            pos,
            width,
            AnsiColor::plain(),
        )
    } else {
        Seq::empty()
    }
}

/// A line of a cell with content: vertical borders, and spaces as the filler.
pub open spec fn value_cell_fragments(
    style: BordersStyle,
    pos: Position,
    width: int,
    content: Seq<char>,
    color: AnsiColor,
) -> Seq<FragmentView> {
    cell_fragments(
        style,
        style.glyph(Role::Vertical),
        style.glyph(Role::Vertical),
        style.glyph(Role::Vertical),
        ' ',
        content,
        pos,
        width,
        color,
    )
}

/// A line of vertical padding of a cell: a line with empty content.
pub open spec fn padding_cell_fragments(
    style: BordersStyle,
    pos: Position,
    width: int,
    color: AnsiColor,
) -> Seq<FragmentView> {
    value_cell_fragments(style, pos, width, Seq::empty(), color)
}

/// The border above a cell, unless the glyph of the horizontal border is too
/// wide to fill it.
pub open spec fn top_cell_result(style: BordersStyle, pos: Position, width: int) -> Result<
    Seq<FragmentView>,
    SizeError,
> {
    centred_or(
        width,
        Seq::empty(),
        style.glyph(Role::Horizontal),
        top_cell_fragments(style, pos, width),
    )
}

/// The border below a cell, unless the cell has one and the glyph of the
/// horizontal border is too wide to fill it.
pub open spec fn bottom_cell_result(style: BordersStyle, pos: Position, width: int) -> Result<
    Seq<FragmentView>,
    SizeError,
> {
    if pos.bottom() {
        centred_or(
            width,
            Seq::empty(),
            style.glyph(Role::Horizontal),
            bottom_cell_fragments(style, pos, width),
        )
    } else {
        Ok(Seq::empty())
    }
}

/// A line of a cell with content, unless the content is wider than the cell.
pub open spec fn value_cell_result(
    style: BordersStyle,
    pos: Position,
    width: int,
    content: Seq<char>,
    color: AnsiColor,
) -> Result<Seq<FragmentView>, SizeError> {
    centred_or(width, content, ' ', value_cell_fragments(style, pos, width, content, color))
}

/// The first `count` parts one after the other.
pub open spec fn concat(count: nat, part: spec_fn(int) -> Seq<FragmentView>) -> Seq<FragmentView>
    decreases count,
{
    if count == 0 {
        Seq::empty()
    } else {
        concat((count - 1) as nat, part) + part(count - 1)
    }
}

/// What a layout depends on besides the text of the cells: the shape of the
/// grid, the size of a cell, the colours of the cells in row-major order and
/// the style of the borders.
pub struct Sheet {
    pub n_cols: nat,
    pub n_rows: nat,
    pub cell_w: nat,
    pub cell_h: nat,
    pub colors: Seq<AnsiColor>,
    pub style: BordersStyle,
}

impl Sheet {
    /// The row-major index of the cell in column `col` of row `row`.
    pub open spec fn index(self, col: int, row: int) -> int {
        linear_index(col, row, self.n_cols as int)
    }

    /// The position of the cell in column `col` of row `row`.
    pub open spec fn position(self, col: int, row: int) -> Position {
        classify(self.index(col, row), self.n_cols as int, self.n_rows as int)
    }

    /// The border above each cell of a row.
    pub open spec fn top_cells(self, row: int) -> spec_fn(int) -> Seq<FragmentView> {
        |col: int| top_cell_fragments(self.style, self.position(col, row), self.cell_w as int)
    }

    /// The line of border above a row.
    pub open spec fn top_line(self, row: int) -> Seq<FragmentView> {
        concat(self.n_cols, self.top_cells(row))
    }

    /// The vertical padding of each cell of a row, in the colours of the cell.
    pub open spec fn padding_cells(self, row: int) -> spec_fn(int) -> Seq<FragmentView> {
        |col: int|
            padding_cell_fragments(
                self.style,
                self.position(col, row),
                self.cell_w as int,
                self.colors[self.index(col, row)],
            )
    }

    /// One line of vertical padding of a row.
    pub open spec fn padding_line(self, row: int) -> Seq<FragmentView> {
        concat(self.n_cols, self.padding_cells(row))
    }

    /// The same line of vertical padding, as often as asked for.
    pub open spec fn padding_repeat(self, row: int) -> spec_fn(int) -> Seq<FragmentView> {
        |line: int| self.padding_line(row)
    }

    /// `count` lines of vertical padding of a row.
    pub open spec fn padding_lines(self, row: int, count: int) -> Seq<FragmentView> {
        concat(
            if count < 0 {
                0
            } else {
                count as nat
            },
            self.padding_repeat(row),
        )
    }

    /// The text of each cell of a row, centred, in the colours of the cell.
    pub open spec fn value_cells(self, row: int, texts: Seq<Seq<char>>) -> spec_fn(int) -> Seq<
        FragmentView,
    > {
        |col: int|
            value_cell_fragments(
                self.style,
                self.position(col, row),
                self.cell_w as int,
                texts[self.index(col, row)],
                self.colors[self.index(col, row)],
            )
    }

    /// The line of a row that shows the texts of its cells.
    pub open spec fn value_line(self, row: int, texts: Seq<Seq<char>>) -> Seq<FragmentView> {
        concat(self.n_cols, self.value_cells(row, texts))
    }

    /// The border below each cell of a row.
    pub open spec fn bottom_cells(self, row: int) -> spec_fn(int) -> Seq<FragmentView> {
        |col: int| bottom_cell_fragments(self.style, self.position(col, row), self.cell_w as int)
    }

    /// The line of border below a row: empty, unless it is the last row.
    pub open spec fn bottom_line(self, row: int) -> Seq<FragmentView> {
        concat(self.n_cols, self.bottom_cells(row))
    }

    /// All the lines of a row: the border above it, the padding that centres
    /// the one line of text in the height of the cell, with the odd line above
    /// the text, and the border below it.
    pub open spec fn row_block(self, row: int, texts: Seq<Seq<char>>) -> Seq<FragmentView> {
        self.top_line(row) + self.padding_lines(row, pad_before(self.cell_h as int, 1))
            + self.value_line(row, texts) + self.padding_lines(
            row,
            pad_after(self.cell_h as int, 1),
        ) + self.bottom_line(row)
    }

    /// The lines of each row of the grid.
    pub open spec fn row_blocks(self, texts: Seq<Seq<char>>) -> spec_fn(int) -> Seq<
        FragmentView,
    > {
        |row: int| self.row_block(row, texts)
    }

    /// The whole grid, row after row.
    pub open spec fn layout(self, texts: Seq<Seq<char>>) -> Seq<FragmentView> {
        concat(self.n_rows, self.row_blocks(texts))
    }

    /// Does the glyph of the horizontal border, the filler of the border
    /// lines, take more than one column?
    pub open spec fn fill_too_wide(self) -> bool {
        glyph_cols(self.style.glyph(Role::Horizontal)) > 1
    }

    /// Does the text of each cell of a row fit in a cell?
    pub open spec fn row_fits(self, row: int, texts: Seq<Seq<char>>) -> bool {
        forall|col: int|
            0 <= col < self.n_cols ==> text_cols(texts[#[trigger] self.index(col, row)])
                <= self.cell_w
    }

    /// Is the text of some cell wider than a cell?
    pub open spec fn text_too_wide(self, texts: Seq<Seq<char>>) -> bool {
        exists|i: int|
            0 <= i < self.n_cols * self.n_rows && text_cols(#[trigger] texts[i]) > self.cell_w
    }

    /// Why the grid cannot be laid out, if it cannot. An empty grid is laid
    /// out as nothing. Any other fails where the glyph of the horizontal
    /// border is too wide to fill a border line, or else where the text of a
    /// cell is wider than a cell.
    pub open spec fn failure(self, texts: Seq<Seq<char>>) -> Option<SizeError> {
        if self.n_rows == 0 {
            None
        } else if self.fill_too_wide() {
            Some(SizeError::FillTooWide)
        } else if self.text_too_wide(texts) {
            Some(SizeError::ContentTooWide)
        } else {
            None
        }
    }

    /// All the lines of a row, or why the row cannot be laid out.
    pub open spec fn row_result(self, row: int, texts: Seq<Seq<char>>) -> Result<
        Seq<FragmentView>,
        SizeError,
    > {
        if self.fill_too_wide() {
            Err(SizeError::FillTooWide)
        } else if !self.row_fits(row, texts) {
            Err(SizeError::ContentTooWide)
        } else {
            Ok(self.row_block(row, texts))
        }
    }

    /// The layout of the grid, or why it cannot be laid out.
    pub open spec fn rendered(self, texts: Seq<Seq<char>>) -> Result<
        Seq<FragmentView>,
        SizeError,
    > {
        match self.failure(texts) {
            Some(e) => Err(e),
            None => Ok(self.layout(texts)),
        }
    }
}

/// What printing appends to the bytes written before, and how it ends: the
/// bytes of the text that `ansi_term` writes for the fragments, or nothing
/// where there are no fragments.
pub open spec fn printed(before: Seq<u8>, rendered: Result<Seq<FragmentView>, SizeError>) -> (
    Result<(), SizeError>,
    Seq<u8>,
) {
    match rendered {
        Ok(fragments) => (Ok(()), before + vstd::utf8::encode_utf8(ansi_text(fragments))),
        Err(e) => (Err(e), before),
    }
}

/// A row in which a text is too wide makes the grid one in which a text is
/// too wide.
pub proof fn lemma_row_in_grid(sheet: Sheet, row: int, texts: Seq<Seq<char>>)
    requires
        sheet.n_cols >= 1,
        0 <= row < sheet.n_rows,
        !sheet.row_fits(row, texts),
    ensures
        sheet.text_too_wide(texts),
{
    let col = choose|col: int|
        0 <= col < sheet.n_cols && text_cols(texts[#[trigger] sheet.index(col, row)])
            > sheet.cell_w;
    let i = sheet.index(col, row);
    let n_cols = sheet.n_cols as int;
    assert(0 <= i < n_cols * sheet.n_rows) by (nonlinear_arith)
        requires
            i == col + n_cols * row,
            0 <= col < n_cols,
            0 <= row < sheet.n_rows,
    ;
    assert(text_cols(texts[i]) > sheet.cell_w);
}

/// A grid in which every row fits is one in which no text is too wide.
pub proof fn lemma_rows_fit(sheet: Sheet, texts: Seq<Seq<char>>)
    requires
        sheet.n_cols >= 1,
        forall|row: int| 0 <= row < sheet.n_rows ==> #[trigger] sheet.row_fits(row, texts),
    ensures
        !sheet.text_too_wide(texts),
{
    if sheet.text_too_wide(texts) {
        let i = choose|i: int|
            0 <= i < sheet.n_cols * sheet.n_rows && text_cols(#[trigger] texts[i])
                > sheet.cell_w;
        let n_cols = sheet.n_cols as int;
        let row = i / n_cols;
        let col = i % n_cols;
        assert(0 <= row < sheet.n_rows && 0 <= col < n_cols && col + n_cols * row == i)
            by (nonlinear_arith)
            requires
                0 <= i < n_cols * sheet.n_rows,
                n_cols >= 1,
                row == i / n_cols,
                col == i % n_cols,
        ;
        assert(sheet.row_fits(row, texts));
        assert(sheet.index(col, row) == i);
    }
}

} // verus!
