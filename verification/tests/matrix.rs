use matrix_display::cell::AnsiColor;
use matrix_display::cell::Cell;
use matrix_display::error::ConfigError;
use matrix_display::error::IndexError;
use matrix_display::matrix::position::Position;
use matrix_display::matrix::Matrix;

fn blank_cells(n: usize) -> Vec<Cell<char>> {
    (0..n)
        .map(|_| Cell::new(' ', AnsiColor::default().fg, AnsiColor::default().bg))
        .collect::<Vec<_>>()
}

#[test]
fn mod_constructor() {
    let n = 4;
    let v = (0..24)
        .map(|x| Cell::new(' ', x, AnsiColor::default().bg))
        .collect::<Vec<_>>();
    let m = Matrix::new(n, v.clone());
    assert_eq!(m.n_cols(), n);
    assert_eq!(*m.cells(), v);
}

#[test]
fn from_index_with_square_matrix() {
    // 0,  1,  2,
    // 3,  4,  5,
    // 6,  7,  8,
    //
    let n = 3;
    let v = (0..11)
        .map(|_| Cell::new(' ', AnsiColor::default().fg, AnsiColor::default().bg))
        .collect::<Vec<_>>();
    let m = Matrix::new(n, v.clone());
    assert_eq!(Position::TopLeft, m.from_index(0));
    assert_eq!(Position::Top, m.from_index(1));
    assert_eq!(Position::TopRight, m.from_index(2));
    assert_eq!(Position::Left, m.from_index(3));
    assert_eq!(Position::Middle, m.from_index(4));
    assert_eq!(Position::Right, m.from_index(5));
    assert_eq!(Position::BottomLeft, m.from_index(6));
    assert_eq!(Position::Bottom, m.from_index(7));
    assert_eq!(Position::BottomRight, m.from_index(8));
}

#[test]
fn from_index_less_cols_than_rows() {
    // 0,  1,  2,
    // 3,  4,  5,
    // 6,  7,  8,
    // 9, 10, 11
    //
    let n = 3;
    let v = (0..12)
        .map(|_| Cell::new(' ', AnsiColor::default().fg, AnsiColor::default().bg))
        .collect::<Vec<_>>();
    let m = Matrix::new(n, v.clone());
    assert_eq!(Position::TopLeft, m.from_index(0));
    assert_eq!(Position::Top, m.from_index(1));
    assert_eq!(Position::TopRight, m.from_index(2));
    assert_eq!(Position::Left, m.from_index(3));
    assert_eq!(Position::Middle, m.from_index(4));
    assert_eq!(Position::Right, m.from_index(5));
    assert_eq!(Position::Left, m.from_index(6));
    assert_eq!(Position::Middle, m.from_index(7));
    assert_eq!(Position::Right, m.from_index(8));
    assert_eq!(Position::BottomLeft, m.from_index(9));
    assert_eq!(Position::Bottom, m.from_index(10));
    assert_eq!(Position::BottomRight, m.from_index(11));
}

#[test]
fn from_index_less_rows_than_cols() {
    // 0, 1,  2, 3,
    // 4, 5,  6, 7,
    // 8, 9, 10, 11
    //
    let n = 4;
    let v = (0..12)
        .map(|_| Cell::new(' ', AnsiColor::default().fg, AnsiColor::default().bg))
        .collect::<Vec<_>>();
    let m = Matrix::new(n, v.clone());
    assert_eq!(Position::TopLeft, m.from_index(0));
    assert_eq!(Position::Top, m.from_index(1));
    assert_eq!(Position::Top, m.from_index(2));
    assert_eq!(Position::TopRight, m.from_index(3));
    assert_eq!(Position::Left, m.from_index(4));
    assert_eq!(Position::Middle, m.from_index(5));
    assert_eq!(Position::Middle, m.from_index(6));
    assert_eq!(Position::Right, m.from_index(7));
    assert_eq!(Position::BottomLeft, m.from_index(8));
    assert_eq!(Position::Bottom, m.from_index(9));
    assert_eq!(Position::Bottom, m.from_index(10));
    assert_eq!(Position::BottomRight, m.from_index(11));
}

#[test]
fn single_cell_is_top_left() {
    let m = Matrix::new(1, blank_cells(1));
    assert_eq!(Position::TopLeft, m.from_index(0));
}

#[test]
fn single_row_has_no_bottom() {
    let m = Matrix::new(3, blank_cells(3));
    assert_eq!(Position::TopLeft, m.from_index(0));
    assert_eq!(Position::Top, m.from_index(1));
    assert_eq!(Position::TopRight, m.from_index(2));
}

#[test]
fn single_column_has_no_right() {
    let m = Matrix::new(1, blank_cells(3));
    assert_eq!(Position::TopLeft, m.from_index(0));
    assert_eq!(Position::Left, m.from_index(1));
    assert_eq!(Position::BottomLeft, m.from_index(2));
}

#[test]
fn square_grid_counts() {
    // In a grid of 5 by 5: 4 corners, 4 * 3 cells on one edge, 3 * 3 inside.
    let m = Matrix::new(5, blank_cells(25));
    let positions = (0..25).map(|i| m.from_index(i)).collect::<Vec<_>>();
    let corners = positions
        .iter()
        .filter(|p| {
            matches!(
                p,
                Position::TopLeft
                    | Position::TopRight
                    | Position::BottomLeft
                    | Position::BottomRight
            )
        })
        .count();
    let edges = positions
        .iter()
        .filter(|p| {
            matches!(
                p,
                Position::Top | Position::Left | Position::Right | Position::Bottom
            )
        })
        .count();
    let middles = positions
        .iter()
        .filter(|p| matches!(p, Position::Middle))
        .count();
    assert_eq!(corners, 4);
    assert_eq!(edges, 12);
    assert_eq!(middles, 9);
}

#[test]
fn facets_hold_for_three_positions_each() {
    let all = [
        Position::Top,
        Position::Left,
        Position::Right,
        Position::Bottom,
        Position::TopLeft,
        Position::TopRight,
        Position::BottomLeft,
        Position::BottomRight,
        Position::Middle,
    ];
    assert_eq!(all.iter().filter(|p| p.top()).count(), 3);
    assert_eq!(all.iter().filter(|p| p.left()).count(), 3);
    assert_eq!(all.iter().filter(|p| p.right()).count(), 3);
    assert_eq!(all.iter().filter(|p| p.bottom()).count(), 3);
    assert!(Position::BottomLeft.bottom() && Position::BottomLeft.left());
    assert!(!Position::Middle.top() && !Position::Middle.left());
    assert!(!Position::Middle.right() && !Position::Middle.bottom());
}

#[test]
fn rows_and_columns() {
    let m = Matrix::new(3, blank_cells(24));
    assert_eq!(m.n_cols(), 3);
    assert_eq!(m.n_rows(), 8);
    assert!(m.is_wf());
    assert!(!Matrix::new(3, blank_cells(11)).is_wf());
    assert!(!Matrix::new(0, blank_cells(0)).is_wf());
}

#[test]
fn try_new_checks_the_shape() {
    assert_eq!(
        Matrix::try_new(0, blank_cells(4)).err(),
        Some(ConfigError::ZeroColumns)
    );
    assert_eq!(
        Matrix::try_new(3, blank_cells(11)).err(),
        Some(ConfigError::RaggedRows)
    );
    let m = Matrix::try_new(3, blank_cells(12)).unwrap();
    assert_eq!(m.n_cols(), 3);
    assert_eq!(m.n_rows(), 4);
    assert_eq!(Matrix::try_new(3, blank_cells(0)).unwrap().n_rows(), 0);
}

#[test]
fn at_reaches_column_then_row() {
    let v = (0..12u8)
        .map(|x| Cell::new(x, x, 0))
        .collect::<Vec<_>>();
    let mut m = Matrix::new(4, v);
    assert_eq!(m.at((0, 0)).value, 0);
    assert_eq!(m.at((3, 0)).value, 3);
    assert_eq!(m.at((1, 2)).value, 9);
    m.at((1, 2)).color.bg = 10;
    assert_eq!(m.cells()[9].color.bg, 10);
    assert_eq!(m.cells()[8].color.bg, 0);
}

#[test]
fn try_at_refuses_what_lies_outside() {
    let v = (0..12u8)
        .map(|x| Cell::new(x, x, 0))
        .collect::<Vec<_>>();
    let mut m = Matrix::new(4, v);
    assert_eq!(m.try_at((3, 2)).unwrap().value, 11);
    assert_eq!(m.try_at((4, 0)).err(), Some(IndexError::OutOfBounds));
    assert_eq!(m.try_at((0, 3)).err(), Some(IndexError::OutOfBounds));
    let mut empty: Matrix<Cell<u8>> = Matrix::new(0, Vec::new());
    assert_eq!(empty.try_at((0, 0)).err(), Some(IndexError::OutOfBounds));
}

#[test]
fn enumerate_cells_pairs_copies_with_positions() {
    let v = (0..6u8).map(|x| Cell::new(x, x, 0)).collect::<Vec<_>>();
    let m = Matrix::new(3, v.clone());
    let snapshot = m.enumerate_cells();
    assert_eq!(snapshot.len(), 6);
    let cells = snapshot.iter().map(|(c, _)| c.clone()).collect::<Vec<_>>();
    assert_eq!(cells, v);
    let positions = snapshot.iter().map(|(_, p)| *p).collect::<Vec<_>>();
    assert_eq!(
        positions,
        vec![
            Position::TopLeft,
            Position::Top,
            Position::TopRight,
            Position::BottomLeft,
            Position::Bottom,
            Position::BottomRight,
        ]
    );
    let empty: Matrix<Cell<u8>> = Matrix::new(0, Vec::new());
    assert_eq!(empty.enumerate_cells().len(), 0);
}
