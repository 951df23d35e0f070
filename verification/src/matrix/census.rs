//! Counting the cells of a grid by the kind of their position.

use crate::matrix::classify;
use crate::matrix::lemma_classify_by_column_and_row;
use crate::matrix::linear_index;
use crate::matrix::position::Position;
use vstd::prelude::*;

verus! {

/// How many cells are corners, how many lie on one edge and how many lie in
/// the middle.
pub struct Census {
    pub corners: nat,
    pub edges: nat,
    pub middles: nat,
}

impl Census {
    /// The sum of two counts.
    pub open spec fn plus(self, other: Census) -> Census {
        Census {
            corners: self.corners + other.corners,
            edges: self.edges + other.edges,
            middles: self.middles + other.middles,
        }
    }

    /// The count of one cell at a position.
    pub open spec fn of(position: Position) -> Census {
        Census {
            corners: if position.is_corner() {
                1
            } else {
                0
            },
            edges: if position.is_edge() {
                1
            } else {
                0
            },
            middles: if position == Position::Middle {
                1
            } else {
                0
            },
        }
    }
}

/// The count of the first `upto` cells, in row-major order, of a grid of
/// `n_cols` columns and `n_rows` rows.
pub open spec fn census(n_cols: int, n_rows: int, upto: nat) -> Census
    decreases upto,
{
    if upto == 0 {
        Census { corners: 0, edges: 0, middles: 0 }
    } else {
        census(n_cols, n_rows, (upto - 1) as nat).plus(
            Census::of(classify(upto - 1, n_cols, n_rows)),
        )
    }
}

/// The count of the first `count` cells of one row.
pub open spec fn row_census(n_cols: int, n_rows: int, row: int, count: int) -> Census {
    let first: nat = if count >= 1 {
        1
    } else {
        0
    };
    let last: nat = if count == n_cols {
        1
    } else {
        0
    };
    let between: nat = if count <= 1 {
        0
    } else if count == n_cols {
        (n_cols - 2) as nat
    } else {
        (count - 1) as nat
    };
    if row == 0 || row == n_rows - 1 {
        Census { corners: first + last, edges: between, middles: 0 }
    } else {
        Census { corners: 0, edges: first + last, middles: between }
    }
}

/// The count of the first `rows` whole rows.
pub open spec fn rows_census(n_cols: int, n_rows: int, rows: int) -> Census {
    if rows <= 0 {
        Census { corners: 0, edges: 0, middles: 0 }
    } else if rows < n_rows {
        Census {
            corners: 2,
            edges: ((n_cols - 2) + 2 * (rows - 1)) as nat,
            middles: ((n_cols - 2) * (rows - 1)) as nat,
        }
    } else {
        Census {
            corners: 4,
            edges: (2 * (n_cols - 2) + 2 * (n_rows - 2)) as nat,
            middles: ((n_cols - 2) * (n_rows - 2)) as nat,
        }
    }
}

/// Counting on within a row adds the count of the cells of that row.
proof fn lemma_row_census(n_cols: int, n_rows: int, row: int, count: int)
    requires
        n_cols >= 2,
        n_rows >= 2,
        0 <= row < n_rows,
        0 <= count <= n_cols,
    ensures
        n_cols * row + count >= 0,
        census(n_cols, n_rows, (n_cols * row + count) as nat) == census(
            n_cols,
            n_rows,
            (n_cols * row) as nat,
        ).plus(row_census(n_cols, n_rows, row, count)),
    decreases count,
{
    assert(n_cols * row >= 0) by (nonlinear_arith)
        requires
            n_cols >= 2,
            row >= 0,
    ;
    if count > 0 {
        lemma_row_census(n_cols, n_rows, row, count - 1);
        lemma_classify_by_column_and_row(count - 1, row, n_cols, n_rows);
        assert(linear_index(count - 1, row, n_cols) == n_cols * row + count - 1);
    }
}

/// The count of whole rows.
proof fn lemma_rows_census(n_cols: int, n_rows: int, rows: int)
    requires
        n_cols >= 2,
        n_rows >= 2,
        0 <= rows <= n_rows,
    ensures
        n_cols * rows >= 0,
        census(n_cols, n_rows, (n_cols * rows) as nat) == rows_census(n_cols, n_rows, rows),
    decreases rows,
{
    assert(n_cols * rows >= 0) by (nonlinear_arith)
        requires
            n_cols >= 2,
            rows >= 0,
    ;
    if rows > 0 {
        let done = rows - 1;
        lemma_rows_census(n_cols, n_rows, done);
        lemma_row_census(n_cols, n_rows, done, n_cols);
        assert(n_cols * done + n_cols == n_cols * rows) by (nonlinear_arith)
            requires
                done == rows - 1,
        ;
        let inner = n_cols - 2;
        assert(inner * 0 == 0) by (nonlinear_arith);
        assert(inner * (rows - 1) == inner * (rows - 2) + inner) by (nonlinear_arith);
        assert(inner * (rows - 1) >= 0) by (nonlinear_arith)
            requires
                inner >= 0,
                rows >= 1,
        ;
        if rows >= 2 {
            assert(inner * (rows - 2) >= 0) by (nonlinear_arith)
                requires
                    inner >= 0,
                    rows >= 2,
            ;
            assert(done - 1 == rows - 2);
        }
    } else {
        assert(n_cols * rows == 0) by (nonlinear_arith)
            requires
                rows == 0,
        ;
    }
}

/// A grid of at least two columns and two rows has four corners, its cells
/// on one edge are those of the four sides without the corners, and the rest
/// lies in the middle.
pub proof fn lemma_grid_census(n_cols: int, n_rows: int)
    requires
        n_cols >= 2,
        n_rows >= 2,
    ensures
        n_cols * n_rows >= 0,
        census(n_cols, n_rows, (n_cols * n_rows) as nat).corners == 4,
        census(n_cols, n_rows, (n_cols * n_rows) as nat).edges == 2 * (n_cols - 2) + 2 * (n_rows
            - 2),
        census(n_cols, n_rows, (n_cols * n_rows) as nat).middles == (n_cols - 2) * (n_rows - 2),
{
    lemma_rows_census(n_cols, n_rows, n_rows);
    assert((n_cols - 2) * (n_rows - 2) >= 0) by (nonlinear_arith)
        requires
            n_cols >= 2,
            n_rows >= 2,
    ;
}

/// A square grid of `n` columns and `n` rows, `n` at least two, has exactly
/// four corners, `4 * (n - 2)` cells on one edge and `(n - 2) * (n - 2)` cells
/// in the middle.
pub proof fn lemma_square_census(n: int)
    requires
        n >= 2,
    ensures
        n * n >= 0,
        census(n, n, (n * n) as nat).corners == 4,
        census(n, n, (n * n) as nat).edges == 4 * (n - 2),
        census(n, n, (n * n) as nat).middles == (n - 2) * (n - 2),
{
    lemma_grid_census(n, n);
}

} // verus!
