//! Laying a grid out as text, and finding the cell under a cursor.
//!
//! Each row of the grid becomes a border line above it, lines of vertical
//! padding, one line with the values and more padding. A border between two
//! rows is drawn once, as the top of the lower row; only the last row draws a
//! line below itself.

use crate::cell::AnsiColor;
use crate::cell::Cell;
use crate::cursor::cell_under;
use crate::cursor::cursor_to_index;
use crate::error::IndexError;
use crate::error::SizeError;
use crate::fragment::ansi_paint;
use crate::fragment::fragments_result;
use crate::fragment::Fragment;
use crate::fragment::FragmentView;
use crate::layout::bottom_cell_result;
use crate::layout::cell_fragments;
use crate::layout::cell_result;
use crate::layout::concat;
use crate::layout::lemma_row_in_grid;
use crate::layout::lemma_rows_fit;
use crate::layout::padding_cell_fragments;
use crate::layout::printed;
use crate::layout::top_cell_result;
use crate::layout::value_cell_result;
use crate::layout::Sheet;
use crate::matrix::lemma_empty_grid_has_no_rows;
use crate::matrix::lemma_index_in_grid;
use crate::matrix::linear_index;
use crate::matrix::position::Position;
use crate::matrix::Matrix;
use crate::pad::pad_after;
use crate::pad::pad_before;
use crate::pad::text_cols;
use crate::pad::try_horizontal_pad;
use crate::pad::Pad;
use crate::style::BordersStyle;
use vstd::prelude::*;

verus! {

/// Format of a cell in a matrix: its width and its height in characters.
///
/// The display pads every cell to this size.
#[derive(Clone, Copy, Debug, PartialEq, Eq)]
pub struct Format {
    pub cell_w: usize,
    pub cell_h: usize,
}

impl Format {
    /// The format of cells `w` characters wide and `h` characters high.
    pub fn new(w: usize, h: usize) -> (format: Format)
        ensures
            format.cell_w == w,
            format.cell_h == h,
    {
        Format { cell_w: w, cell_h: h }
    }

    /// A cell is at least one character wide and one character high.
    pub open spec fn wf(&self) -> bool {
        self.cell_w >= 1 && self.cell_h >= 1
    }

    /// Is the format well formed?
    pub fn is_wf(&self) -> (ok: bool)
        ensures
            ok == self.wf(),
    {
        self.cell_w >= 1 && self.cell_h >= 1
    }
}

impl Default for Format {
    /// Cells of one character.
    fn default() -> (format: Format)
        ensures
            format.cell_w == 1,
            format.cell_h == 1,
    {
        Format::new(1, 1)
    }
}

/// Lays out the lines of single cells in one style of borders.
pub struct CellDisplay<'a> {
    borders: &'a BordersStyle,
}

impl<'a> CellDisplay<'a> {
    /// The style of the borders.
    pub closed spec fn style(&self) -> BordersStyle {
        *self.borders
    }

    /// Lays out cells with the borders of the style `b`.
    pub fn with_borders(b: &'a BordersStyle) -> (display: CellDisplay<'a>)
        ensures
            display.style() == *b,
    {
        CellDisplay { borders: b }
    }

    /// The border above a cell.
    pub fn top_cell(&self, pos: &Position, cell_width: usize) -> (out: Result<
        Vec<Fragment>,
        SizeError,
    >)
        ensures
            fragments_result(out) == top_cell_result(self.style(), *pos, cell_width as int),
    {
        proof {
            reveal_strlit("");
            assert(""@ =~= Seq::<char>::empty());
        }
        if pos.top() {
            self.cell(
                self.borders.top_left_corner(),
                self.borders.top_intersection(),
                self.borders.top_right_corner(),
                self.borders.horizontal_border(),
                "",
                pos,
                cell_width,
                &AnsiColor::default(),
            )
        } else {
            self.cell(
                self.borders.left_intersection(),
                self.borders.intersection(),
                self.borders.right_intersection(),
                self.borders.horizontal_border(),
                "",
                pos,
                cell_width,
                &AnsiColor::default(),
            )
        }
    }

    /// The border below a cell.
    pub fn bottom_cell(&self, pos: &Position, cell_width: usize) -> (out: Result<
        Vec<Fragment>,
        SizeError,
    >)
        ensures
            fragments_result(out) == bottom_cell_result(self.style(), *pos, cell_width as int),
    {
        proof {
            reveal_strlit("");
            assert(""@ =~= Seq::<char>::empty());
        }
        if pos.bottom() {
            self.cell(
                self.borders.bottom_left_corner(),
                self.borders.bottom_intersection(),
                self.borders.bottom_right_corner(),
                self.borders.horizontal_border(),
                "",
                pos,
                cell_width,
                &AnsiColor::default(),
            )
        } else {
            let out: Vec<Fragment> = Vec::new();
            assert(out.deep_view() =~= Seq::<FragmentView>::empty());
            Ok(out)
        }
    }

    /// A line of vertical padding of a cell. It never fails: the filler is a
    /// space, and the content is empty.
    pub fn padding_cell(&self, pos: &Position, cell_width: usize, color: &AnsiColor) -> (out:
        Result<Vec<Fragment>, SizeError>)
        ensures
            fragments_result(out) == Ok::<Seq<FragmentView>, SizeError>(
                padding_cell_fragments(self.style(), *pos, cell_width as int, *color),
            ),
    {
        proof {
            reveal_strlit("");
            assert(""@ =~= Seq::<char>::empty());
        }
        self.value_cell(pos, cell_width, "", color)
    }

    /// A line of a cell with content.
    pub fn value_cell(
        &self,
        pos: &Position,
        cell_width: usize,
        content: &str,
        color: &AnsiColor,
    ) -> (out: Result<Vec<Fragment>, SizeError>)
        ensures
            fragments_result(out) == value_cell_result(
                self.style(),
                *pos,
                cell_width as int,
                content@,
                *color,
            ),
    {
        self.cell(
            self.borders.vertical_border(),
            self.borders.vertical_border(),
            self.borders.vertical_border(),
            ' ',
            content,
            pos,
            cell_width,
            color,
        )
    }

    /// One line of one cell, or the reason why its content cannot be centred:
    /// the filler takes more than one column, or else the content is wider
    /// than the cell.
    pub fn cell(
        &self,
        left: char,
        middle: char,
        right: char,
        fill: char,
        content: &str,
        pos: &Position,
        width: usize,
        color: &AnsiColor,
    ) -> (out: Result<Vec<Fragment>, SizeError>)
        ensures
            fragments_result(out) == cell_result(
                self.style(),
                left,
                middle,
                right,
                fill,
                content@,
                *pos,
                width as int,
                *color,
            ),
    {
        let mut left_border = String::new();
        if pos.left() {
            left_border.push(left);
        } else {
            left_border.push(middle);
        }
        let inside = match try_horizontal_pad(width, content, fill) {
            Ok(text) => text,
            Err(e) => {
                return Err(e);
            },
        };
        let mut right_border = String::new();
        if pos.right() {
            right_border.push(right);
            if !self.borders.is_none() || !content.is_empty() {
                right_border.push('\r');
                right_border.push('\n');
            }
        }
        let plain = AnsiColor::default();
        let mut out: Vec<Fragment> = Vec::new();
        out.push(Fragment { text: left_border, color: plain });
        out.push(Fragment { text: inside, color: *color });
        out.push(Fragment { text: right_border, color: plain });
        assert(out.deep_view() =~~= cell_fragments(
            self.style(),
            left,
            middle,
            right,
            fill,
            content@,
            *pos,
            width as int,
            *color,
        ));
        Ok(out)
    }
}

/// Appends a run of fragments to those laid out so far, or hands on the reason
/// why there is none.
fn extend(out: &mut Vec<Fragment>, part: Result<Vec<Fragment>, SizeError>) -> (done: Result<
    (),
    SizeError,
>)
    ensures
        match part {
            Ok(more) => done is Ok && final(out).deep_view() == old(out).deep_view()
                + more.deep_view(),
            Err(e) => done == Err::<(), SizeError>(e) && final(out)@ == old(out)@,
        },
{
    match part {
        Err(e) => Err(e),
        Ok(mut more) => {
            let ghost head = out.deep_view();
            let ghost tail = more.deep_view();
            out.append(&mut more);
            assert(out.deep_view() =~= head + tail);
            Ok(())
        },
    }
}

/// Stores a matrix of data and offers a way to lay it out as text.
///
/// The display borrows the data for writing, so that a cell under a cursor can
/// be changed between two layouts.
pub struct MatrixDisplay<'a, T> where T: Clone, T: std::fmt::Display + 'a {
    /// The format of a cell.
    pub fmt: &'a Format,
    /// The data that is displayed.
    pub mat: &'a mut Matrix<Cell<T>>,
}

impl<'a, T> MatrixDisplay<'a, T> where T: Clone, T: std::fmt::Display + 'a {
    /// The format of a cell.
    pub open spec fn format(&self) -> Format {
        *self.fmt
    }

    /// The data that is displayed.
    pub open spec fn matrix(&self) -> Matrix<Cell<T>> {
        *self.mat
    }

    /// A display is well formed where its format and its matrix are.
    pub open spec fn wf(&self) -> bool {
        self.format().wf() && self.matrix().wf()
    }

    /// The colours of the cells in row-major order.
    pub open spec fn colors(&self) -> Seq<AnsiColor> {
        Seq::new(self.matrix()@.len(), |i: int| self.matrix()@[i].color)
    }

    /// What a layout of this display in a style depends on, besides the texts.
    pub open spec fn sheet(&self, style: BordersStyle) -> Sheet {
        Sheet {
            n_cols: self.matrix().cols(),
            n_rows: self.matrix().rows(),
            cell_w: self.format().cell_w as nat,
            cell_h: self.format().cell_h as nat,
            colors: self.colors(),
            style: style,
        }
    }

    /// Construct a matrix display from the format of a cell and the data.
    ///
    /// The data is left as the display last has it.
    pub fn new(f: &'a Format, m: &'a mut Matrix<Cell<T>>) -> (display: MatrixDisplay<'a, T>)
        ensures
            display.format() == *f,
            display.matrix() == *old(m),
            *final(display.mat) == *final(m),
    {
        MatrixDisplay { fmt: f, mat: m }
    }

    /// Is the display well formed?
    pub fn is_wf(&self) -> (ok: bool)
        ensures
            ok == self.wf(),
    {
        self.fmt.is_wf() && self.mat.is_wf()
    }

    /// Number of rows in the matrix.
    pub fn n_rows(&self) -> (n: usize)
        requires
            self.matrix().cols() >= 1,
        ensures
            n == self.matrix().rows(),
    {
        self.mat.n_rows()
    }

    /// Number of columns in the matrix.
    pub fn n_cols(&self) -> (n: usize)
        ensures
            n == self.matrix().cols(),
    {
        self.mat.n_cols()
    }

    /// The matrix's width in number of characters, borders not counted.
    pub fn width(&self) -> (w: usize)
        requires
            self.matrix().cols() * self.format().cell_w <= usize::MAX,
        ensures
            w == self.matrix().cols() * self.format().cell_w,
    {
        self.n_cols() * self.fmt.cell_w
    }

    /// The matrix's height in number of characters, borders not counted.
    pub fn height(&self) -> (h: usize)
        requires
            self.matrix().cols() >= 1,
            self.matrix().rows() * self.format().cell_h <= usize::MAX,
        ensures
            h == self.matrix().rows() * self.format().cell_h,
    {
        self.n_rows() * self.fmt.cell_h
    }

    /// The line of border above a row, unless the glyph of the horizontal
    /// border is too wide to fill it.
    fn print_top(&self, borders: &BordersStyle, row: usize) -> (out: Result<
        Vec<Fragment>,
        SizeError,
    >)
        requires
            self.matrix().cols() >= 1,
            row < self.matrix().rows(),
        ensures
            fragments_result(out) == if self.sheet(*borders).fill_too_wide() {
                Err::<Seq<FragmentView>, SizeError>(SizeError::FillTooWide)
            } else {
                Ok(self.sheet(*borders).top_line(row as int))
            },
    {
        let n_cols = self.mat.n_cols();
        let len = self.mat.cells().len();
        let ghost sheet = self.sheet(*borders);
        let ghost part = sheet.top_cells(row as int);
        let mut out: Vec<Fragment> = Vec::new();
        assert(out.deep_view() =~= Seq::<FragmentView>::empty());
        let mut col: usize = 0;
        while col < n_cols
            invariant
                col <= n_cols,
                n_cols == self.matrix().cols(),
                n_cols >= 1,
                len == self.matrix()@.len(),
                row < self.matrix().rows(),
                sheet == self.sheet(*borders),
                part == sheet.top_cells(row as int),
                col > 0 ==> !sheet.fill_too_wide(),
                out.deep_view() == concat(col as nat, part),
            decreases n_cols - col,
        {
            proof {
                lemma_index_in_grid(col as int, row as int, n_cols as int, len as int);
            }
            let pos = self.mat.from_index(col + n_cols * row);
            let cell = CellDisplay::with_borders(borders).top_cell(&pos, self.fmt.cell_w);
            extend(&mut out, cell)?;
            col = col + 1;
        }
        Ok(out)
    }

    /// One line of vertical padding of a row.
    fn print_padding_line(&self, borders: &BordersStyle, row: usize) -> (out: Result<
        Vec<Fragment>,
        SizeError,
    >)
        requires
            self.matrix().cols() >= 1,
            row < self.matrix().rows(),
        ensures
            fragments_result(out) == Ok::<Seq<FragmentView>, SizeError>(
                self.sheet(*borders).padding_line(row as int),
            ),
    {
        let n_cols = self.mat.n_cols();
        let len = self.mat.cells().len();
        let ghost sheet = self.sheet(*borders);
        let ghost part = sheet.padding_cells(row as int);
        let mut out: Vec<Fragment> = Vec::new();
        assert(out.deep_view() =~= Seq::<FragmentView>::empty());
        let mut col: usize = 0;
        while col < n_cols
            invariant
                col <= n_cols,
                n_cols == self.matrix().cols(),
                n_cols >= 1,
                len == self.matrix()@.len(),
                row < self.matrix().rows(),
                sheet == self.sheet(*borders),
                part == sheet.padding_cells(row as int),
                out.deep_view() == concat(col as nat, part),
            decreases n_cols - col,
        {
            proof {
                lemma_index_in_grid(col as int, row as int, n_cols as int, len as int);
            }
            let index: usize = col + n_cols * row;
            let pos = self.mat.from_index(index);
            let cell = CellDisplay::with_borders(borders).padding_cell(
                &pos,
                self.fmt.cell_w,
                &self.mat.cells()[index].color,
            );
            extend(&mut out, cell)?;
            col = col + 1;
        }
        Ok(out)
    }

    /// `pad` lines of vertical padding of a row.
    fn print_vertical_pad(&self, borders: &BordersStyle, row: usize, pad: usize) -> (out: Result<
        Vec<Fragment>,
        SizeError,
    >)
        requires
            self.matrix().cols() >= 1,
            row < self.matrix().rows(),
        ensures
            fragments_result(out) == Ok::<Seq<FragmentView>, SizeError>(
                self.sheet(*borders).padding_lines(row as int, pad as int),
            ),
    {
        let ghost part = self.sheet(*borders).padding_repeat(row as int);
        let mut out: Vec<Fragment> = Vec::new();
        assert(out.deep_view() =~= Seq::<FragmentView>::empty());
        let mut line: usize = 0;
        while line < pad
            invariant
                line <= pad,
                self.matrix().cols() >= 1,
                row < self.matrix().rows(),
                part == self.sheet(*borders).padding_repeat(row as int),
                out.deep_view() == concat(line as nat, part),
            decreases pad - line,
        {
            let cells = self.print_padding_line(borders, row);
            extend(&mut out, cells)?;
            line = line + 1;
        }
        Ok(out)
    }

    /// The line of a row that shows the texts of its cells, unless one of
    /// them is wider than a cell.
    fn print_value_row(&self, borders: &BordersStyle, row: usize, texts: &Vec<String>) -> (out:
        Result<Vec<Fragment>, SizeError>)
        requires
            self.matrix().cols() >= 1,
            row < self.matrix().rows(),
            texts@.len() == self.matrix()@.len(),
        ensures
            fragments_result(out) == if self.sheet(*borders).row_fits(
                row as int,
                texts.deep_view(),
            ) {
                Ok::<Seq<FragmentView>, SizeError>(
                    self.sheet(*borders).value_line(row as int, texts.deep_view()),
                )
            } else {
                Err(SizeError::ContentTooWide)
            },
    {
        let n_cols = self.mat.n_cols();
        let len = self.mat.cells().len();
        let ghost sheet = self.sheet(*borders);
        let ghost part = sheet.value_cells(row as int, texts.deep_view());
        let mut out: Vec<Fragment> = Vec::new();
        assert(out.deep_view() =~= Seq::<FragmentView>::empty());
        let mut col: usize = 0;
        while col < n_cols
            invariant
                col <= n_cols,
                n_cols == self.matrix().cols(),
                n_cols >= 1,
                len == self.matrix()@.len(),
                texts@.len() == len,
                row < self.matrix().rows(),
                sheet == self.sheet(*borders),
                part == sheet.value_cells(row as int, texts.deep_view()),
                forall|c: int|
                    0 <= c < col ==> text_cols(
                        texts.deep_view()[#[trigger] sheet.index(c, row as int)],
                    ) <= sheet.cell_w,
                out.deep_view() == concat(col as nat, part),
            decreases n_cols - col,
        {
            proof {
                lemma_index_in_grid(col as int, row as int, n_cols as int, len as int);
            }
            let index: usize = col + n_cols * row;
            assert(index == sheet.index(col as int, row as int));
            let pos = self.mat.from_index(index);
            let cell = CellDisplay::with_borders(borders).value_cell(
                &pos,
                self.fmt.cell_w,
                texts[index].as_str(),
                &self.mat.cells()[index].color,
            );
            extend(&mut out, cell)?;
            col = col + 1;
        }
        Ok(out)
    }

    /// The line of border below a row. It fails only where the glyph of the
    /// horizontal border is too wide to fill it.
    fn print_bottom(&self, borders: &BordersStyle, row: usize) -> (out: Result<
        Vec<Fragment>,
        SizeError,
    >)
        requires
            self.matrix().cols() >= 1,
            row < self.matrix().rows(),
        ensures
            out matches Ok(line) ==> line.deep_view() == self.sheet(*borders).bottom_line(
                row as int,
            ),
            out matches Err(e) ==> e == SizeError::FillTooWide && self.sheet(
                *borders,
            ).fill_too_wide(),
    {
        let n_cols = self.mat.n_cols();
        let len = self.mat.cells().len();
        let ghost sheet = self.sheet(*borders);
        let ghost part = sheet.bottom_cells(row as int);
        let mut out: Vec<Fragment> = Vec::new();
        assert(out.deep_view() =~= Seq::<FragmentView>::empty());
        let mut col: usize = 0;
        while col < n_cols
            invariant
                col <= n_cols,
                n_cols == self.matrix().cols(),
                n_cols >= 1,
                len == self.matrix()@.len(),
                row < self.matrix().rows(),
                sheet == self.sheet(*borders),
                part == sheet.bottom_cells(row as int),
                out.deep_view() == concat(col as nat, part),
            decreases n_cols - col,
        {
            proof {
                lemma_index_in_grid(col as int, row as int, n_cols as int, len as int);
            }
            let pos = self.mat.from_index(col + n_cols * row);
            let cell = CellDisplay::with_borders(borders).bottom_cell(&pos, self.fmt.cell_w);
            extend(&mut out, cell)?;
            col = col + 1;
        }
        Ok(out)
    }

    /// The text that each cell displays, in row-major order.
    pub fn cell_texts(&self) -> (texts: Vec<String>)
        ensures
            self.shows(texts),
    {
        let cells = self.mat.cells();
        let mut texts: Vec<String> = Vec::new();
        let mut index: usize = 0;
        while index < cells.len()
            invariant
                index <= cells@.len(),
                cells@ == self.matrix()@,
                texts@.len() == index,
                forall|i: int|
                    0 <= i < index ==> vstd::string::to_string_from_display_ensures::<T>(
                        &self.matrix()@[i].value,
                        #[trigger] texts@[i],
                    ),
            decreases cells@.len() - index,
        {
            texts.push(cells[index].value.to_string());
            index = index + 1;
        }
        texts
    }

    /// Lays the matrix out with the texts given for its cells, in row-major
    /// order: row after row, each with the border above it, the padding, the
    /// line of texts and, for the last row, the border below it.
    ///
    /// An empty matrix is laid out as nothing. Any other is not laid out
    /// where the glyph of the horizontal border takes more than one column,
    /// or else where a text is wider than a cell.
    pub fn render_texts(&self, texts: &Vec<String>, borders: &BordersStyle) -> (out: Result<
        Vec<Fragment>,
        SizeError,
    >)
        requires
            self.wf(),
            texts@.len() == self.matrix()@.len(),
        ensures
            fragments_result(out) == self.sheet(*borders).rendered(texts.deep_view()),
    {
        let vertical_pad = Pad::new(self.fmt.cell_h, 1);
        let n_rows = self.n_rows();
        let ghost sheet = self.sheet(*borders);
        let ghost part = sheet.row_blocks(texts.deep_view());
        let mut out: Vec<Fragment> = Vec::new();
        assert(out.deep_view() =~= Seq::<FragmentView>::empty());
        let mut row: usize = 0;
        while row < n_rows
            invariant
                row <= n_rows,
                n_rows == self.matrix().rows(),
                self.wf(),
                texts@.len() == self.matrix()@.len(),
                vertical_pad.before == pad_before(self.format().cell_h as int, 1),
                vertical_pad.after == pad_after(self.format().cell_h as int, 1),
                sheet == self.sheet(*borders),
                part == sheet.row_blocks(texts.deep_view()),
                row > 0 ==> !sheet.fill_too_wide(),
                forall|r: int| 0 <= r < row ==> #[trigger] sheet.row_fits(r, texts.deep_view()),
                out.deep_view() == concat(row as nat, part),
            decreases n_rows - row,
        {
            let block = self.print_row(borders, row, texts, &vertical_pad);
            proof {
                if block is Err && !sheet.fill_too_wide() {
                    lemma_row_in_grid(sheet, row as int, texts.deep_view());
                }
            }
            extend(&mut out, block)?;
            row = row + 1;
        }
        proof {
            lemma_rows_fit(sheet, texts.deep_view());
        }
        Ok(out)
    }

    /// All the lines of a row, unless the glyph of the horizontal border is
    /// too wide or else a text of the row is wider than a cell.
    fn print_row(
        &self,
        borders: &BordersStyle,
        row: usize,
        texts: &Vec<String>,
        vertical_pad: &Pad,
    ) -> (out: Result<Vec<Fragment>, SizeError>)
        requires
            self.matrix().cols() >= 1,
            row < self.matrix().rows(),
            texts@.len() == self.matrix()@.len(),
            vertical_pad.before == pad_before(self.format().cell_h as int, 1),
            vertical_pad.after == pad_after(self.format().cell_h as int, 1),
        ensures
            fragments_result(out) == self.sheet(*borders).row_result(
                row as int,
                texts.deep_view(),
            ),
    {
        let mut all_strings: Vec<Fragment> = Vec::new();
        assert(all_strings.deep_view() =~= Seq::<FragmentView>::empty());
        extend(&mut all_strings, self.print_top(borders, row))?;
        extend(&mut all_strings, self.print_vertical_pad(borders, row, vertical_pad.before))?;
        extend(&mut all_strings, self.print_value_row(borders, row, texts))?;
        extend(&mut all_strings, self.print_vertical_pad(borders, row, vertical_pad.after))?;
        extend(&mut all_strings, self.print_bottom(borders, row))?;
        assert(all_strings.deep_view() =~= self.sheet(*borders).row_block(
            row as int,
            texts.deep_view(),
        ));
        Ok(all_strings)
    }

    /// Are these the texts that the cells display, in row-major order?
    pub open spec fn shows(&self, texts: Vec<String>) -> bool {
        &&& texts@.len() == self.matrix()@.len()
        &&& forall|i: int|
            0 <= i < texts@.len() ==> vstd::string::to_string_from_display_ensures::<T>(
                &self.matrix()@[i].value,
                #[trigger] texts@[i],
            )
    }

    /// Is `out` the outcome of laying this display out in a style, with these
    /// texts for what its cells display?
    pub open spec fn renders(
        &self,
        texts: Vec<String>,
        style: BordersStyle,
        out: Result<Vec<Fragment>, SizeError>,
    ) -> bool {
        &&& self.shows(texts)
        &&& fragments_result(out) == self.sheet(style).rendered(texts.deep_view())
    }

    /// Render a matrix into fragments of text, each with its colours.
    ///
    /// The text of each cell is what its value displays as. The layout is that
    /// of `render_texts` for those texts.
    pub fn render(&self, borders: &BordersStyle) -> (out: Result<Vec<Fragment>, SizeError>)
        requires
            self.wf(),
        ensures
            exists|texts: Vec<String>| #[trigger] self.renders(texts, *borders, out),
            self.matrix()@.len() == 0 ==> (out matches Ok(fragments) && fragments@.len() == 0),
            out matches Err(SizeError::FillTooWide) <==> self.matrix()@.len() > 0 && self.sheet(
                *borders,
            ).fill_too_wide(),
    {
        proof {
            lemma_empty_grid_has_no_rows(
                self.matrix()@.len() as int,
                self.matrix().cols() as int,
            );
        }
        let texts = self.cell_texts();
        let out = self.render_texts(&texts, borders);
        assert(self.renders(texts, *borders, out));
        proof {
            if self.matrix()@.len() == 0 {
                let layout = self.sheet(*borders).layout(texts.deep_view());
                assert(layout.len() == 0);
                assert(out->Ok_0.deep_view().len() == out->Ok_0@.len());
            }
        }
        out
    }

    /// Is `done` the outcome of printing this display in a style, with these
    /// texts for what its cells display, and `after` what then stands where
    /// `before` stood?
    pub open spec fn prints(
        &self,
        texts: Vec<String>,
        style: BordersStyle,
        before: Seq<u8>,
        done: Result<(), SizeError>,
        after: Seq<u8>,
    ) -> bool {
        &&& self.shows(texts)
        &&& (done, after) == printed(before, self.sheet(style).rendered(texts.deep_view()))
    }

    /// Print a matrix: renders it in a style of borders and appends the bytes
    /// of the text, with the escape sequences for the colours, to `out`.
    ///
    /// Nothing is appended where the matrix cannot be laid out.
    pub fn print(&self, out: &mut Vec<u8>, borders: &BordersStyle) -> (done: Result<(), SizeError>)
        requires
            self.wf(),
        ensures
            exists|texts: Vec<String>| #[trigger]
                self.prints(texts, *borders, old(out)@, done, final(out)@),
            done is Err ==> final(out)@ == old(out)@,
            done matches Err(SizeError::FillTooWide) <==> self.matrix()@.len() > 0 && self.sheet(
                *borders,
            ).fill_too_wide(),
    {
        let rendered = self.render(borders);
        let ghost texts = choose|texts: Vec<String>| self.renders(texts, *borders, rendered);
        let fragments = match rendered {
            Ok(fragments) => fragments,
            Err(e) => {
                assert(self.prints(texts, *borders, old(out)@, Err(e), out@));
                return Err(e);
            },
        };
        let text = ansi_paint(&fragments);
        let bytes = text.as_str().as_bytes();
        let mut index: usize = 0;
        while index < bytes.len()
            invariant
                index <= bytes@.len(),
                out@ == old(out)@ + bytes@.take(index as int),
            decreases bytes@.len() - index,
        {
            out.push(bytes[index]);
            index = index + 1;
        }
        assert(bytes@.take(index as int) =~= bytes@);
        assert(self.prints(texts, *borders, old(out)@, Ok(()), out@));
        Ok(())
    }

    /// The column and the row that a cursor lies in, where what lies beyond
    /// the grid counts for its last column or row.
    pub open spec fn cursor_cell(&self, cursor: (usize, usize)) -> (int, int) {
        cell_under(
            cursor.0 as int,
            cursor.1 as int,
            self.format().cell_w as int,
            self.format().cell_h as int,
            self.matrix().cols() as int,
            self.matrix().rows() as int,
        )
    }

    /// The row-major index of the cell that a cursor lies in.
    pub open spec fn cursor_cell_index(&self, cursor: (usize, usize)) -> int {
        linear_index(
            self.cursor_cell(cursor).0,
            self.cursor_cell(cursor).1,
            self.matrix().cols() as int,
        )
    }

    /// Is there a cell that a cursor could lie in? The grid has a column and a
    /// whole row, and its cells have a width and a height.
    pub open spec fn has_cells(&self) -> bool {
        self.format().wf() && self.matrix().cols() >= 1 && self.matrix().rows() >= 1
    }

    /// Is there a cell that a cursor could lie in?
    pub fn is_with_cells(&self) -> (ok: bool)
        ensures
            ok == self.has_cells(),
    {
        self.fmt.is_wf() && self.mat.n_cols() >= 1 && self.mat.n_rows() >= 1
    }

    /// Takes a cursor position in characters (x, y), counted from one, and
    /// returns the coordinates (column, row) of the cell under the cursor.
    ///
    /// What lies beyond the grid counts for its last column or row. There
    /// must be a cell: see `has_cells`.
    pub fn coordinates_at_cursor_position(&self, cursor: (usize, usize)) -> (coord: (
        usize,
        usize,
    ))
        requires
            self.has_cells(),
            cursor.0 >= 1,
            cursor.1 >= 1,
        ensures
            (coord.0 as int, coord.1 as int) == self.cursor_cell(cursor),
            coord.0 < self.matrix().cols(),
            coord.1 < self.matrix().rows(),
    {
        let col = cursor_to_index(cursor.0, self.fmt.cell_w, self.mat.n_cols());
        let row = cursor_to_index(cursor.1, self.fmt.cell_h, self.mat.n_rows());
        (col, row)
    }

    /// Takes a cursor position in characters (x, y) and returns the
    /// coordinates (column, row) of the cell under the cursor, or refuses the
    /// cursor: where a coordinate is zero, or else where there is no cell.
    pub fn try_coordinates_at_cursor_position(&self, cursor: (usize, usize)) -> (coord: Result<
        (usize, usize),
        IndexError,
    >)
        ensures
            cursor.0 == 0 || cursor.1 == 0 ==> coord matches Err(IndexError::ZeroCursor),
            cursor.0 >= 1 && cursor.1 >= 1 && !self.has_cells() ==> coord matches Err(
                IndexError::OutOfBounds,
            ),
            cursor.0 >= 1 && cursor.1 >= 1 && self.has_cells() ==> coord is Ok,
            coord matches Ok(c) ==> (c.0 as int, c.1 as int) == self.cursor_cell(cursor) && c.0
                < self.matrix().cols() && c.1 < self.matrix().rows(),
    {
        if cursor.0 == 0 || cursor.1 == 0 {
            Err(IndexError::ZeroCursor)
        } else if !self.is_with_cells() {
            Err(IndexError::OutOfBounds)
        } else {
            Ok(self.coordinates_at_cursor_position(cursor))
        }
    }

    /// Takes a cursor position in characters (x, y), counted from one, and
    /// returns a mutable reference to the cell under the cursor.
    ///
    /// This is used to modify a cell that was clicked. What is written
    /// through the reference replaces that one cell of the matrix.
    pub fn cell_at_cursor_position(&mut self, cursor: (usize, usize)) -> (cell: &mut Cell<T>)
        requires
            old(self).has_cells(),
            cursor.0 >= 1,
            cursor.1 >= 1,
        ensures
            *cell == old(self).matrix()@[old(self).cursor_cell_index(cursor)],
            final(self).matrix()@ == old(self).matrix()@.update(
                old(self).cursor_cell_index(cursor),
                *final(cell),
            ),
            final(self).matrix().cols() == old(self).matrix().cols(),
            final(self).format() == old(self).format(),
            *final(final(self).mat) == *final(old(self).mat),
    {
        let coord = self.coordinates_at_cursor_position(cursor);
        self.mat.at(coord)
    }

    /// Takes a cursor position in characters (x, y) and returns a mutable
    /// reference to the cell under the cursor, or refuses the cursor: where a
    /// coordinate is zero, or else where there is no cell.
    pub fn try_cell_at_cursor_position(&mut self, cursor: (usize, usize)) -> (cell: Result<
        &mut Cell<T>,
        IndexError,
    >)
        ensures
            cursor.0 == 0 || cursor.1 == 0 ==> cell matches Err(IndexError::ZeroCursor),
            cursor.0 >= 1 && cursor.1 >= 1 && !old(self).has_cells() ==> cell matches Err(
                IndexError::OutOfBounds,
            ),
            cursor.0 >= 1 && cursor.1 >= 1 && old(self).has_cells() ==> cell is Ok,
            cell is Err ==> final(self).matrix() == old(self).matrix(),
            cell matches Ok(c) ==> *c == old(self).matrix()@[old(self).cursor_cell_index(cursor)]
                && final(self).matrix()@ == old(self).matrix()@.update(
                old(self).cursor_cell_index(cursor),
                *final(c),
            ),
            final(self).matrix().cols() == old(self).matrix().cols(),
            final(self).format() == old(self).format(),
            *final(final(self).mat) == *final(old(self).mat),
    {
        if cursor.0 == 0 || cursor.1 == 0 {
            Err(IndexError::ZeroCursor)
        } else if !self.is_with_cells() {
            Err(IndexError::OutOfBounds)
        } else {
            Ok(self.cell_at_cursor_position(cursor))
        }
    }
}

} // verus!
