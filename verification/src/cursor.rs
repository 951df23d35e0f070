//! From a position on the screen to a cell of the grid.
//!
//! The screen is counted from one. The grid is taken to start in the first
//! column of the first line, each cell as wide and as high as the format
//! says, with no room for borders.

use vstd::prelude::*;

verus! {

/// The index, along one axis, of the cell under a cursor that counts from one.
/// What lies beyond the last cell counts for the last cell.
pub open spec fn cursor_index(p: int, cell_dim: int, n_cells: int) -> int {
    (if p < n_cells * cell_dim {
        p
    } else {
        n_cells * cell_dim
    } - 1) / cell_dim
}

/// The index, along one axis, of the cell under the cursor at `x`, where each
/// of the `n_cells` cells takes `cell_dim` characters.
///
/// The cursor counts from one. There must be a cell, and it must have a size.
pub fn cursor_to_index(x: usize, cell_dim: usize, n_cells: usize) -> (index: usize)
    requires
        x >= 1,
        cell_dim >= 1,
        n_cells >= 1,
    ensures
        index == cursor_index(x as int, cell_dim as int, n_cells as int),
        index < n_cells,
{
    proof {
        lemma_cursor_by_division(x as int, cell_dim as int, n_cells as int);
    }
    let index: usize = (x - 1) / cell_dim;
    if index >= n_cells {
        n_cells - 1
    } else {
        index
    }
}

/// Clamping the cursor to the grid and dividing is dividing and clamping the
/// index to the last cell.
pub proof fn lemma_cursor_by_division(p: int, cell_dim: int, n_cells: int)
    requires
        p >= 1,
        cell_dim >= 1,
        n_cells >= 1,
    ensures
        0 <= cursor_index(p, cell_dim, n_cells) < n_cells,
        cursor_index(p, cell_dim, n_cells) == if (p - 1) / cell_dim >= n_cells {
            n_cells - 1
        } else {
            (p - 1) / cell_dim
        },
{
    let total = n_cells * cell_dim;
    assert(total >= 1 && (total - 1) / cell_dim == n_cells - 1) by (nonlinear_arith)
        requires
            total == n_cells * cell_dim,
            cell_dim >= 1,
            n_cells >= 1,
    ;
    assert(((p - 1) / cell_dim >= n_cells) <==> p - 1 >= total) by (nonlinear_arith)
        requires
            total == n_cells * cell_dim,
            cell_dim >= 1,
            n_cells >= 1,
            p >= 1,
    ;
    assert((p - 1) / cell_dim >= 0) by (nonlinear_arith)
        requires
            cell_dim >= 1,
            p >= 1,
    ;
}

/// The column and the row of the cell under the cursor at (`x`, `y`), in a grid
/// of `n_cols` columns and `n_rows` rows whose cells are `cell_w` characters
/// wide and `cell_h` characters high.
pub open spec fn cell_under(
    x: int,
    y: int,
    cell_w: int,
    cell_h: int,
    n_cols: int,
    n_rows: int,
) -> (int, int) {
    (cursor_index(x, cell_w, n_cols), cursor_index(y, cell_h, n_rows))
}

/// The first position on the screen, along one axis, that belongs to the cell
/// at `index`, counted from one.
pub open spec fn span_start(index: int, cell_dim: int) -> int {
    index * cell_dim + 1
}

/// The last position on the screen, along one axis, that belongs to the cell
/// at `index`, counted from one.
pub open spec fn span_end(index: int, cell_dim: int) -> int {
    (index + 1) * cell_dim
}

/// A cursor anywhere within the span of a cell maps back to that cell.
pub proof fn lemma_cursor_inside_cell(p: int, cell_dim: int, n_cells: int, index: int)
    requires
        cell_dim >= 1,
        0 <= index < n_cells,
        span_start(index, cell_dim) <= p <= span_end(index, cell_dim),
    ensures
        cursor_index(p, cell_dim, n_cells) == index,
{
    lemma_cursor_by_division(p, cell_dim, n_cells);
    assert((p - 1) / cell_dim == index) by (nonlinear_arith)
        requires
            cell_dim >= 1,
            index * cell_dim + 1 <= p <= (index + 1) * cell_dim,
    ;
}

/// A cursor anywhere within the characters of a cell maps back to the column
/// and the row of that cell.
pub proof fn lemma_cursor_finds_cell(
    x: int,
    y: int,
    cell_w: int,
    cell_h: int,
    n_cols: int,
    n_rows: int,
    col: int,
    row: int,
)
    requires
        cell_w >= 1,
        cell_h >= 1,
        0 <= col < n_cols,
        0 <= row < n_rows,
        span_start(col, cell_w) <= x <= span_end(col, cell_w),
        span_start(row, cell_h) <= y <= span_end(row, cell_h),
    ensures
        cell_under(x, y, cell_w, cell_h, n_cols, n_rows) == (col, row),
{
    lemma_cursor_inside_cell(x, cell_w, n_cols, col);
    lemma_cursor_inside_cell(y, cell_h, n_rows, row);
}

/// A cursor at the end of the grid or beyond it maps to the last cell.
pub proof fn lemma_cursor_clamps(p: int, cell_dim: int, n_cells: int)
    requires
        cell_dim >= 1,
        n_cells >= 1,
        p >= n_cells * cell_dim,
    ensures
        cursor_index(p, cell_dim, n_cells) == n_cells - 1,
{
    let total = n_cells * cell_dim;
    assert(total >= 1 && (total - 1) / cell_dim == n_cells - 1) by (nonlinear_arith)
        requires
            total == n_cells * cell_dim,
            cell_dim >= 1,
            n_cells >= 1,
    ;
}

/// The spans of the cells tile the grid: each position from one to the end of
/// the grid lies in the span of exactly one cell, the one it maps to.
pub proof fn lemma_cursor_spans_tile(p: int, cell_dim: int, n_cells: int)
    requires
        cell_dim >= 1,
        n_cells >= 1,
        1 <= p <= n_cells * cell_dim,
    ensures
        span_start(cursor_index(p, cell_dim, n_cells), cell_dim) <= p <= span_end(
            cursor_index(p, cell_dim, n_cells),
            cell_dim,
        ),
        forall|index: int|
            0 <= index < n_cells && span_start(index, cell_dim) <= p <= #[trigger] span_end(
                index,
                cell_dim,
            ) ==> index == cursor_index(p, cell_dim, n_cells),
{
    lemma_cursor_by_division(p, cell_dim, n_cells);
    let found = (p - 1) / cell_dim;
    assert(found * cell_dim + 1 <= p <= (found + 1) * cell_dim && found < n_cells)
        by (nonlinear_arith)
        requires
            cell_dim >= 1,
            n_cells >= 1,
            1 <= p <= n_cells * cell_dim,
            found == (p - 1) / cell_dim,
    ;
    assert forall|index: int|
        0 <= index < n_cells && span_start(index, cell_dim) <= p <= #[trigger] span_end(
            index,
            cell_dim,
        ) implies index == cursor_index(p, cell_dim, n_cells) by {
        lemma_cursor_inside_cell(p, cell_dim, n_cells, index);
    }
}

} // verus!
