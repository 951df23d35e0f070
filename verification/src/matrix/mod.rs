//! A matrix of arbitrary data.
//!
//! The data is stored as a vector in row-major order, beside the number of
//! columns. A cell is reached for writing by its column and row. For reading,
//! `enumerate_cells` hands out a copy of every cell with its `Position` within
//! the matrix.

pub mod census;
pub mod position;

use crate::error::ConfigError;
use crate::error::IndexError;
use crate::matrix::position::Position;
use vstd::prelude::*;

verus! {

/// Does the index lie in the first row?
pub open spec fn on_top(index: int, n_cols: int) -> bool {
    index < n_cols
}

/// Does the index lie in the first column?
pub open spec fn on_left(index: int, n_cols: int) -> bool {
    index % n_cols == 0
}

/// Does the index lie in the last column?
pub open spec fn on_right(index: int, n_cols: int) -> bool {
    index % n_cols == n_cols - 1
}

/// Does the index lie in the last row?
pub open spec fn on_bottom(index: int, n_cols: int, n_rows: int) -> bool {
    index >= (n_rows - 1) * n_cols
}

/// The position of the cell at a row-major index in a grid of `n_cols`
/// columns and `n_rows` rows.
///
/// The corners come first, then the edges; what lies on no edge is in the
/// middle. Where a grid has one row or one column a cell lies on two opposite
/// edges at once: the first case that holds decides.
pub open spec fn classify(index: int, n_cols: int, n_rows: int) -> Position {
    if on_top(index, n_cols) && on_left(index, n_cols) {
        Position::TopLeft
    } else if on_top(index, n_cols) && on_right(index, n_cols) {
        Position::TopRight
    } else if on_bottom(index, n_cols, n_rows) && on_left(index, n_cols) {
        Position::BottomLeft
    } else if on_bottom(index, n_cols, n_rows) && on_right(index, n_cols) {
        Position::BottomRight
    } else if on_top(index, n_cols) {
        Position::Top
    } else if on_left(index, n_cols) {
        Position::Left
    } else if on_right(index, n_cols) {
        Position::Right
    } else if on_bottom(index, n_cols, n_rows) {
        Position::Bottom
    } else {
        Position::Middle
    }
}

/// The row-major index of the cell in column `col` of row `row`.
pub open spec fn linear_index(col: int, row: int, n_cols: int) -> int {
    col + n_cols * row
}

/// The position of the cell in column `col` of row `row`, told from the
/// column and the row: the first row is the top, the first column the left,
/// the last column the right, and the last row the bottom.
pub open spec fn position_at(col: int, row: int, n_cols: int, n_rows: int) -> Position {
    let top = row == 0;
    let left = col == 0;
    let right = col == n_cols - 1;
    let bottom = row >= n_rows - 1;
    if top && left {
        Position::TopLeft
    } else if top && right {
        Position::TopRight
    } else if bottom && left {
        Position::BottomLeft
    } else if bottom && right {
        Position::BottomRight
    } else if top {
        Position::Top
    } else if left {
        Position::Left
    } else if right {
        Position::Right
    } else if bottom {
        Position::Bottom
    } else {
        Position::Middle
    }
}

/// Stores a matrix of arbitrary data.
///
/// Gives mutable access to the cell at a given column and row, and an owned
/// copy of the data with the position of each cell within the matrix.
#[derive(Debug)]
pub struct Matrix<T> where T: Clone {
    n_cols: usize,
    cells: Vec<T>,
}

impl<T> View for Matrix<T> where T: Clone {
    type V = Seq<T>;

    /// The cells, row after row.
    closed spec fn view(&self) -> Seq<T> {
        self.cells@
    }
}

impl<T> Clone for Matrix<T> where T: Clone {
    /// The copy has as many columns, and a clone of each cell in its place.
    fn clone(&self) -> (copy: Matrix<T>)
        ensures
            copy.cols() == self.cols(),
            copy@.len() == self@.len(),
            forall|i: int| 0 <= i < self@.len() ==> cloned(self@[i], #[trigger] copy@[i]),
    {
        Matrix { n_cols: self.n_cols, cells: self.cells.clone() }
    }
}

impl<T> Matrix<T> where T: Clone {
    /// The number of columns.
    pub closed spec fn cols(&self) -> nat {
        self.n_cols as nat
    }

    /// The number of whole rows.
    pub open spec fn rows(&self) -> nat {
        (self@.len() / self.cols()) as nat
    }

    /// A well-formed matrix has at least one column, and its cells fill every
    /// row.
    pub open spec fn wf(&self) -> bool {
        self.cols() >= 1 && self@.len() % self.cols() == 0
    }

    /// The position of the cell at a row-major index.
    pub open spec fn position(&self, index: int) -> Position {
        classify(index, self.cols() as int, self.rows() as int)
    }

    /// Constructs a matrix from the number of columns and the cells in
    /// row-major order, whatever they are: see `wf` and `try_new`.
    pub fn new(n_cols: usize, cells: Vec<T>) -> (matrix: Matrix<T>)
        ensures
            matrix.cols() == n_cols,
            matrix@ == cells@,
    {
        Matrix { n_cols: n_cols, cells: cells }
    }

    /// Constructs a matrix from the number of columns and the cells in
    /// row-major order, or refuses them: where there is no column, or else
    /// where the cells do not fill the last row.
    pub fn try_new(n_cols: usize, cells: Vec<T>) -> (matrix: Result<Matrix<T>, ConfigError>)
        ensures
            n_cols == 0 ==> matrix matches Err(ConfigError::ZeroColumns),
            n_cols > 0 && cells@.len() % (n_cols as nat) != 0 ==> matrix matches Err(
                ConfigError::RaggedRows,
            ),
            n_cols > 0 && cells@.len() % (n_cols as nat) == 0 ==> matrix is Ok,
            matrix matches Ok(m) ==> m.wf() && m.cols() == n_cols && m@ == cells@,
    {
        if n_cols == 0 {
            Err(ConfigError::ZeroColumns)
        } else if cells.len() % n_cols != 0 {
            Err(ConfigError::RaggedRows)
        } else {
            Ok(Matrix::new(n_cols, cells))
        }
    }

    /// Is the matrix well formed?
    pub fn is_wf(&self) -> (ok: bool)
        ensures
            ok == self.wf(),
    {
        self.n_cols >= 1 && self.cells.len() % self.n_cols == 0
    }

    /// Number of rows in the matrix.
    pub fn n_rows(&self) -> (n: usize)
        requires
            self.cols() >= 1,
        ensures
            n == self.rows(),
    {
        self.cells.len() / self.n_cols()
    }

    /// Number of columns in the matrix.
    pub fn n_cols(&self) -> (n: usize)
        ensures
            n == self.cols(),
    {
        self.n_cols
    }

    /// The cells in row-major order.
    pub fn cells(&self) -> (cells: &Vec<T>)
        ensures
            cells@ == self@,
    {
        &self.cells
    }

    /// Mutably access the element at a given position (column, row).
    ///
    /// The column and the row must lie within the matrix. What the caller
    /// writes through the reference replaces that one cell.
    pub fn at(&mut self, pos: (usize, usize)) -> (cell: &mut T)
        requires
            pos.0 < old(self).cols(),
            pos.1 < old(self).rows(),
        ensures
            *cell == old(self)@[linear_index(pos.0 as int, pos.1 as int, old(self).cols() as int)],
            final(self)@ == old(self)@.update(
                linear_index(pos.0 as int, pos.1 as int, old(self).cols() as int),
                *final(cell),
            ),
            final(self).cols() == old(self).cols(),
    {
        let len: usize = self.cells.len();
        proof {
            lemma_index_in_grid(pos.0 as int, pos.1 as int, self.cols() as int, len as int);
        }
        let index: usize = pos.0 + self.n_cols * pos.1;
        &mut self.cells[index]
    }

    /// Mutably access the element at a given position (column, row), or
    /// refuse a position outside the matrix.
    pub fn try_at(&mut self, pos: (usize, usize)) -> (cell: Result<&mut T, IndexError>)
        ensures
            old(self).cols() >= 1 && pos.0 < old(self).cols() && pos.1 < old(self).rows()
                <==> cell is Ok,
            cell matches Err(e) ==> e == IndexError::OutOfBounds && final(self)@ == old(self)@,
            cell matches Ok(c) ==> *c == old(self)@[linear_index(
                pos.0 as int,
                pos.1 as int,
                old(self).cols() as int,
            )] && final(self)@ == old(self)@.update(
                linear_index(pos.0 as int, pos.1 as int, old(self).cols() as int),
                *final(c),
            ),
            final(self).cols() == old(self).cols(),
    {
        if self.n_cols >= 1 && pos.0 < self.n_cols && pos.1 < self.n_rows() {
            Ok(self.at(pos))
        } else {
            Err(IndexError::OutOfBounds)
        }
    }

    /// Does the index lie in the first row?
    pub fn is_top(&self, index: usize) -> (on_edge: bool)
        ensures
            on_edge == on_top(index as int, self.cols() as int),
    {
        index < self.n_cols()
    }

    /// Does the index lie in the first column?
    pub fn is_left(&self, index: usize) -> (on_edge: bool)
        requires
            self.cols() >= 1,
        ensures
            on_edge == on_left(index as int, self.cols() as int),
    {
        index % self.n_cols() == 0
    }

    /// Does the index lie in the last column?
    pub fn is_right(&self, index: usize) -> (on_edge: bool)
        requires
            self.cols() >= 1,
        ensures
            on_edge == on_right(index as int, self.cols() as int),
    {
        index % self.n_cols() == self.n_cols() - 1
    }

    /// Does the index lie in the last row?
    pub fn is_bottom(&self, index: usize) -> (on_edge: bool)
        requires
            self.cols() >= 1,
        ensures
            on_edge == on_bottom(index as int, self.cols() as int, self.rows() as int),
    {
        let n_rows = self.n_rows();
        proof {
            lemma_bottom_by_row(index as int, self.cols() as int, n_rows as int);
        }
        n_rows <= 1 || index / self.n_cols() >= n_rows - 1
    }

    /// The position of the cell at a row-major index.
    pub fn from_index(&self, index: usize) -> (position: Position)
        requires
            self.cols() >= 1,
        ensures
            position == self.position(index as int),
    {
        if self.is_top(index) && self.is_left(index) {
            Position::TopLeft
        } else if self.is_top(index) && self.is_right(index) {
            Position::TopRight
        } else if self.is_bottom(index) && self.is_left(index) {
            Position::BottomLeft
        } else if self.is_bottom(index) && self.is_right(index) {
            Position::BottomRight
        } else if self.is_top(index) {
            Position::Top
        } else if self.is_left(index) {
            Position::Left
        } else if self.is_right(index) {
            Position::Right
        } else if self.is_bottom(index) {
            Position::Bottom
        } else {
            Position::Middle
        }
    }

    /// View the data stored in the matrix.
    ///
    /// The returned data is a clone of the data owned by the matrix and is
    /// owned by the caller. The second element of each pair is the position of
    /// that element within the matrix.
    pub fn enumerate_cells(&self) -> (snapshot: Vec<(T, Position)>)
        requires
            self.cols() >= 1 || self@.len() == 0,
        ensures
            snapshot@.len() == self@.len(),
            forall|i: int|
                0 <= i < self@.len() ==> cloned(self@[i], (#[trigger] snapshot@[i]).0)
                    && snapshot@[i].1 == self.position(i),
    {
        let mut snapshot: Vec<(T, Position)> = Vec::new();
        let mut index: usize = 0;
        while index < self.cells.len()
            invariant
                index <= self.cells.len(),
                self.cols() >= 1 || self@.len() == 0,
                snapshot@.len() == index,
                forall|i: int|
                    0 <= i < index ==> cloned(self@[i], (#[trigger] snapshot@[i]).0)
                        && snapshot@[i].1 == self.position(i),
            decreases self.cells.len() - index,
        {
            let cell = self.cells[index].clone();
            let position = self.from_index(index);
            snapshot.push((cell, position));
            index = index + 1;
        }
        snapshot
    }
}

/// A column and a row within the grid give an index within its cells.
pub proof fn lemma_index_in_grid(col: int, row: int, n_cols: int, len: int)
    requires
        0 <= col < n_cols,
        0 <= row < len / n_cols,
        0 <= len,
    ensures
        0 <= linear_index(col, row, n_cols) < len,
        0 <= n_cols * row <= len,
        linear_index(col, row, n_cols) / n_cols == row,
        linear_index(col, row, n_cols) % n_cols == col,
{
    let n_rows = len / n_cols;
    assert(n_cols * n_rows <= len) by (nonlinear_arith)
        requires
            n_cols > 0,
            n_rows == len / n_cols,
            len >= 0,
    ;
    assert(n_cols * row + n_cols <= n_cols * n_rows && n_cols * row >= 0) by (nonlinear_arith)
        requires
            0 <= row < n_rows,
            n_cols > 0,
    ;
    assert((col + n_cols * row) / n_cols == row && (col + n_cols * row) % n_cols == col)
        by (nonlinear_arith)
        requires
            0 <= col < n_cols,
            0 <= row,
    ;
}

/// A grid whose cells fill its rows has no row exactly when it has no cell.
pub proof fn lemma_empty_grid_has_no_rows(len: int, n_cols: int)
    requires
        0 <= len,
        n_cols >= 1,
        len % n_cols == 0,
    ensures
        len / n_cols == 0 <==> len == 0,
        n_cols * (len / n_cols) == len,
{
    assert(n_cols * (len / n_cols) == len && (len / n_cols == 0 <==> len == 0))
        by (nonlinear_arith)
        requires
            0 <= len,
            n_cols >= 1,
            len % n_cols == 0,
    ;
}

/// The position of a cell by its index is its position by its column and row.
pub proof fn lemma_classify_by_column_and_row(col: int, row: int, n_cols: int, n_rows: int)
    requires
        0 <= col < n_cols,
        0 <= row,
    ensures
        on_top(linear_index(col, row, n_cols), n_cols) <==> row == 0,
        on_left(linear_index(col, row, n_cols), n_cols) <==> col == 0,
        on_right(linear_index(col, row, n_cols), n_cols) <==> col == n_cols - 1,
        on_bottom(linear_index(col, row, n_cols), n_cols, n_rows) <==> row >= n_rows - 1,
        classify(linear_index(col, row, n_cols), n_cols, n_rows) == position_at(
            col,
            row,
            n_cols,
            n_rows,
        ),
{
    let index = col + n_cols * row;
    assert(index % n_cols == col && index / n_cols == row) by (nonlinear_arith)
        requires
            index == col + n_cols * row,
            0 <= col < n_cols,
            0 <= row,
    ;
    assert((index < n_cols) <==> row == 0) by (nonlinear_arith)
        requires
            index == col + n_cols * row,
            0 <= col < n_cols,
            0 <= row,
    ;
    assert((index >= (n_rows - 1) * n_cols) <==> row >= n_rows - 1) by (nonlinear_arith)
        requires
            index == col + n_cols * row,
            0 <= col < n_cols,
            0 <= row,
    ;
}

/// In a grid of at least two columns and two rows, a cell is on an edge of
/// the grid exactly when its position says so: the borders that two
/// neighbours draw agree.
pub proof fn lemma_facets_match_edges(col: int, row: int, n_cols: int, n_rows: int)
    requires
        n_cols >= 2,
        n_rows >= 2,
        0 <= col < n_cols,
        0 <= row < n_rows,
    ensures
        position_at(col, row, n_cols, n_rows).top() <==> row == 0,
        position_at(col, row, n_cols, n_rows).left() <==> col == 0,
        position_at(col, row, n_cols, n_rows).right() <==> col == n_cols - 1,
        position_at(col, row, n_cols, n_rows).bottom() <==> row == n_rows - 1,
{
}

/// An index lies in the last row exactly when its row is the last one.
pub proof fn lemma_bottom_by_row(index: int, n_cols: int, n_rows: int)
    requires
        0 <= index,
        n_cols >= 1,
        0 <= n_rows,
    ensures
        on_bottom(index, n_cols, n_rows) <==> (n_rows <= 1 || index / n_cols >= n_rows - 1),
{
    if n_rows <= 1 {
        assert((n_rows - 1) * n_cols <= 0) by (nonlinear_arith)
            requires
                n_rows <= 1,
                n_cols >= 1,
        ;
    } else {
        assert((index >= (n_rows - 1) * n_cols) <==> (index / n_cols >= n_rows - 1))
            by (nonlinear_arith)
            requires
                0 <= index,
                n_cols >= 1,
                n_rows >= 2,
        ;
    }
}

} // verus!
