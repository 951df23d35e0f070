//! The lines that a layout is made of.

use crate::cell::AnsiColor;
use crate::fragment::FragmentView;
use crate::layout::cell_fragments;
use crate::layout::concat;
use crate::layout::Sheet;
use crate::matrix::lemma_classify_by_column_and_row;
use crate::matrix::lemma_facets_match_edges;
use crate::matrix::position::Position;
use crate::pad::lemma_padded_empty;
use crate::pad::pad_after;
use crate::pad::pad_before;
use crate::pad::padded;
use crate::pad::repeated;
use crate::style::BordersStyle;
use crate::style::Role;
use vstd::prelude::*;

verus! {

/// Without borders, with blank borders and with borders in ASCII the filler of
/// the border lines takes no more than one column: such a layout fails only
/// where a text is too wide.
pub proof fn lemma_ascii_fill_fits(sheet: Sheet)
    requires
        sheet.style == BordersStyle::NoBorders || sheet.style == BordersStyle::Plain
            || sheet.style == BordersStyle::Retro,
    ensures
        !sheet.fill_too_wide(),
{
}

/// Where every part is empty, so is the whole.
proof fn lemma_concat_of_nothing(count: nat, part: spec_fn(int) -> Seq<FragmentView>)
    requires
        forall|i: int| 0 <= i < count ==> (#[trigger] part(i)).len() == 0,
    ensures
        concat(count, part) == Seq::<FragmentView>::empty(),
    decreases count,
{
    if count > 0 {
        lemma_concat_of_nothing((count - 1) as nat, part);
        assert(part(count - 1).len() == 0);
        assert(concat(count, part) =~= Seq::<FragmentView>::empty());
    }
}

/// The border between two rows is drawn once: a row that is not the last one
/// draws nothing below itself, and leaves the border to the row that follows.
pub proof fn lemma_inner_border_drawn_once(sheet: Sheet, row: int)
    requires
        sheet.n_cols >= 1,
        0 <= row < sheet.n_rows - 1,
    ensures
        sheet.bottom_line(row) == Seq::<FragmentView>::empty(),
{
    let part = sheet.bottom_cells(row);
    assert forall|col: int| 0 <= col < sheet.n_cols implies (#[trigger] part(col)).len()
        == 0 by {
        lemma_classify_by_column_and_row(col, row, sheet.n_cols as int, sheet.n_rows as int);
    }
    lemma_concat_of_nothing(sheet.n_cols, part);
}

/// The layout of a grid of one cell, one line high. The cell is the top left
/// corner of the grid, which is neither on its right nor on its bottom edge:
/// it has the corner and the border above it and the border on its left;
/// nothing closes it on the right, no line breaks, and no border is drawn
/// below it.
pub proof fn lemma_single_cell_layout(sheet: Sheet, texts: Seq<Seq<char>>)
    requires
        sheet.n_cols == 1,
        sheet.n_rows == 1,
        sheet.cell_h == 1,
    ensures
        sheet.layout(texts) == seq![
            FragmentView {
                text: seq![sheet.style.glyph(Role::TopLeft)],
                color: AnsiColor::plain(),
            },
            FragmentView {
                text: repeated(sheet.style.glyph(Role::Horizontal), sheet.cell_w as int),
                color: AnsiColor::plain(),
            },
            FragmentView { text: Seq::empty(), color: AnsiColor::plain() },
            FragmentView {
                text: seq![sheet.style.glyph(Role::Vertical)],
                color: AnsiColor::plain(),
            },
            FragmentView {
                text: padded(sheet.cell_w as int, texts[0], ' '),
                color: sheet.colors[0],
            },
            FragmentView { text: Seq::empty(), color: AnsiColor::plain() },
        ],
{
    reveal_with_fuel(concat, 2);
    lemma_padded_empty(sheet.cell_w as int, sheet.style.glyph(Role::Horizontal));
    assert(sheet.index(0, 0) == 0);
    assert(sheet.position(0, 0) == Position::TopLeft);
    let plain = AnsiColor::plain();
    assert(sheet.top_line(0) =~~= seq![
        FragmentView { text: seq![sheet.style.glyph(Role::TopLeft)], color: plain },
        FragmentView {
            text: repeated(sheet.style.glyph(Role::Horizontal), sheet.cell_w as int),
            color: plain,
        },
        FragmentView { text: Seq::empty(), color: plain },
    ]);
    assert(sheet.value_line(0, texts) =~~= seq![
        FragmentView { text: seq![sheet.style.glyph(Role::Vertical)], color: plain },
        FragmentView { text: padded(sheet.cell_w as int, texts[0], ' '), color: sheet.colors[0] },
        FragmentView { text: Seq::empty(), color: plain },
    ]);
    assert(sheet.padding_lines(0, 0).len() == 0);
    assert(sheet.bottom_line(0).len() == 0);
    assert(sheet.layout(texts) =~~= seq![
        FragmentView { text: seq![sheet.style.glyph(Role::TopLeft)], color: plain },
        FragmentView {
            text: repeated(sheet.style.glyph(Role::Horizontal), sheet.cell_w as int),
            color: plain,
        },
        FragmentView { text: Seq::empty(), color: plain },
        FragmentView { text: seq![sheet.style.glyph(Role::Vertical)], color: plain },
        FragmentView { text: padded(sheet.cell_w as int, texts[0], ' '), color: sheet.colors[0] },
        FragmentView { text: Seq::empty(), color: plain },
    ]);
}

/// Does a text end with a line break?
pub open spec fn ends_line(text: Seq<char>) -> bool {
    text.len() >= 2 && text[text.len() - 2] == '\r' && text[text.len() - 1] == '\n'
}

/// The number of lines that end within a run of whole cells. Each line of a
/// cell is three fragments, and the third is what closes the cell: a line
/// ends where that fragment ends with a line break.
pub open spec fn lines_ended(fragments: Seq<FragmentView>) -> nat
    decreases fragments.len(),
{
    if fragments.len() < 3 {
        0
    } else {
        lines_ended(fragments.subrange(0, fragments.len() - 3)) + if ends_line(
            fragments.last().text,
        ) {
            1nat
        } else {
            0nat
        }
    }
}

/// The lines that end in two runs of whole cells add up.
proof fn lemma_lines_append(head: Seq<FragmentView>, tail: Seq<FragmentView>)
    requires
        tail.len() % 3 == 0,
    ensures
        lines_ended(head + tail) == lines_ended(head) + lines_ended(tail),
    decreases tail.len(),
{
    if tail.len() == 0 {
        assert(head + tail =~= head);
    } else {
        let shorter = tail.subrange(0, tail.len() - 3);
        lemma_lines_append(head, shorter);
        assert((head + tail).subrange(0, (head + tail).len() - 3) =~= head + shorter);
        assert((head + tail).last() == tail.last());
    }
}

/// Is this a run of `cells` whole cells in which `ends` lines end?
pub open spec fn measures(fragments: Seq<FragmentView>, cells: nat, ends: nat) -> bool {
    fragments.len() == 3 * cells && lines_ended(fragments) == ends
}

/// Two runs of whole cells one after the other.
proof fn lemma_join_measures(
    first: Seq<FragmentView>,
    second: Seq<FragmentView>,
    cells: nat,
    ends: nat,
    more_cells: nat,
    more_ends: nat,
)
    requires
        measures(first, cells, ends),
        measures(second, more_cells, more_ends),
    ensures
        measures(first + second, cells + more_cells, ends + more_ends),
{
    lemma_lines_append(first, second);
}

/// As many runs alike one after the other.
proof fn lemma_concat_measures(
    count: nat,
    part: spec_fn(int) -> Seq<FragmentView>,
    cells: nat,
    ends: nat,
)
    requires
        forall|i: int| 0 <= i < count ==> measures(#[trigger] part(i), cells, ends),
    ensures
        measures(concat(count, part), count * cells, count * ends),
    decreases count,
{
    if count == 0 {
        assert(0 * cells == 0 && 0 * ends == 0) by (nonlinear_arith);
    } else {
        let before = (count - 1) as nat;
        lemma_concat_measures(before, part, cells, ends);
        assert(measures(part(count - 1), cells, ends));
        lemma_join_measures(
            concat(before, part),
            part(count - 1),
            before * cells,
            before * ends,
            cells,
            ends,
        );
        assert(before * cells + cells == count * cells && before * ends + ends == count * ends)
            by (nonlinear_arith)
            requires
                before == count - 1,
        ;
    }
}

/// One line of a grid with borders, of at least two columns: it has three
/// fragments for each cell, and it ends once, after its last cell.
proof fn lemma_line_measures(n_cols: nat, part: spec_fn(int) -> Seq<FragmentView>)
    requires
        n_cols >= 2,
        forall|col: int|
            0 <= col < n_cols ==> measures(
                #[trigger] part(col),
                1,
                if col == n_cols - 1 {
                    1
                } else {
                    0
                },
            ),
    ensures
        measures(concat(n_cols, part), n_cols, 1),
{
    let before = (n_cols - 1) as nat;
    assert forall|i: int| 0 <= i < before implies measures(#[trigger] part(i), 1, 0) by {}
    lemma_concat_measures(before, part, 1, 0);
    assert(measures(part(n_cols - 1), 1, 1));
    lemma_join_measures(concat(before, part), part(n_cols - 1), before * 1, before * 0, 1, 1);
}

/// A line of a cell is three fragments. With borders it ends the line
/// exactly where the cell lies on the right edge of the grid.
proof fn lemma_cell_measures(
    style: BordersStyle,
    left: char,
    middle: char,
    right: char,
    fill: char,
    content: Seq<char>,
    pos: Position,
    width: int,
    color: AnsiColor,
)
    requires
        !style.is_none(),
    ensures
        measures(
            cell_fragments(style, left, middle, right, fill, content, pos, width, color),
            1,
            if pos.right() {
                1
            } else {
                0
            },
        ),
{
    let fragments = cell_fragments(style, left, middle, right, fill, content, pos, width, color);
    assert(fragments.subrange(0, 0).len() == 0);
    assert(lines_ended(fragments.subrange(0, 0)) == 0);
}

/// In a grid with borders, of at least two columns and two rows, each row has
/// a border line above it and as many lines as a cell is high; the last row
/// has a border line below it as well. Each line has three fragments for each
/// cell, and ends once.
proof fn lemma_row_measures(sheet: Sheet, row: int, texts: Seq<Seq<char>>)
    requires
        sheet.n_cols >= 2,
        sheet.n_rows >= 2,
        sheet.cell_h >= 1,
        !sheet.style.is_none(),
        0 <= row < sheet.n_rows,
    ensures
        measures(
            sheet.row_block(row, texts),
            sheet.n_cols * (sheet.cell_h + if row == sheet.n_rows - 1 {
                2nat
            } else {
                1nat
            }),
            sheet.cell_h + if row == sheet.n_rows - 1 {
                2nat
            } else {
                1nat
            },
        ),
{
    let n_cols = sheet.n_cols;
    let above = pad_before(sheet.cell_h as int, 1);
    let below = pad_after(sheet.cell_h as int, 1);
    let top = sheet.top_cells(row);
    let padding = sheet.padding_cells(row);
    let value = sheet.value_cells(row, texts);
    let bottom = sheet.bottom_cells(row);
    let style = sheet.style;
    let w = sheet.cell_w as int;
    let plain = AnsiColor::plain();
    let v = style.glyph(Role::Vertical);
    assert forall|col: int| 0 <= col < n_cols implies measures(
        #[trigger] top(col),
        1,
        if col == n_cols - 1 {
            1
        } else {
            0
        },
    ) by {
        lemma_classify_by_column_and_row(col, row, n_cols as int, sheet.n_rows as int);
        lemma_facets_match_edges(col, row, n_cols as int, sheet.n_rows as int);
        let pos = sheet.position(col, row);
        if pos.top() {
            lemma_cell_measures(
                style,
                style.glyph(Role::TopLeft),
                style.glyph(Role::TopJunction),
                style.glyph(Role::TopRight),
                style.glyph(Role::Horizontal),
                Seq::empty(),
                pos,
                w,
                plain,
            );
        } else {
            lemma_cell_measures(
                style,
                style.glyph(Role::LeftJunction),
                style.glyph(Role::Cross),
                style.glyph(Role::RightJunction),
                style.glyph(Role::Horizontal),
                Seq::empty(),
                pos,
                w,
                plain,
            );
        }
    }
    assert forall|col: int| 0 <= col < n_cols implies measures(
        #[trigger] padding(col),
        1,
        if col == n_cols - 1 {
            1
        } else {
            0
        },
    ) by {
        lemma_classify_by_column_and_row(col, row, n_cols as int, sheet.n_rows as int);
        lemma_facets_match_edges(col, row, n_cols as int, sheet.n_rows as int);
        lemma_cell_measures(
            style,
            v,
            v,
            v,
            ' ',
            Seq::empty(),
            sheet.position(col, row),
            w,
            sheet.colors[sheet.index(col, row)],
        );
    }
    assert forall|col: int| 0 <= col < n_cols implies measures(
        #[trigger] value(col),
        1,
        if col == n_cols - 1 {
            1
        } else {
            0
        },
    ) by {
        lemma_classify_by_column_and_row(col, row, n_cols as int, sheet.n_rows as int);
        lemma_facets_match_edges(col, row, n_cols as int, sheet.n_rows as int);
        lemma_cell_measures(
            style,
            v,
            v,
            v,
            ' ',
            texts[sheet.index(col, row)],
            sheet.position(col, row),
            w,
            sheet.colors[sheet.index(col, row)],
        );
    }
    lemma_line_measures(n_cols, top);
    lemma_line_measures(n_cols, padding);
    lemma_line_measures(n_cols, value);
    let lines = sheet.padding_repeat(row);
    assert forall|i: int| 0 <= i < above implies measures(#[trigger] lines(i), n_cols, 1) by {}
    lemma_concat_measures(above as nat, lines, n_cols, 1);
    assert forall|i: int| 0 <= i < below implies measures(#[trigger] lines(i), n_cols, 1) by {}
    lemma_concat_measures(below as nat, lines, n_cols, 1);
    let head = sheet.top_line(row) + sheet.padding_lines(row, above);
    lemma_join_measures(
        sheet.top_line(row),
        sheet.padding_lines(row, above),
        n_cols,
        1,
        above as nat * n_cols,
        above as nat * 1,
    );
    let upper = head + sheet.value_line(row, texts);
    lemma_join_measures(
        head,
        sheet.value_line(row, texts),
        n_cols + above as nat * n_cols,
        1 + above as nat * 1,
        n_cols,
        1,
    );
    let body = upper + sheet.padding_lines(row, below);
    lemma_join_measures(
        upper,
        sheet.padding_lines(row, below),
        n_cols + above as nat * n_cols + n_cols,
        1 + above as nat * 1 + 1,
        below as nat * n_cols,
        below as nat * 1,
    );
    let body_lines = (above + 2 + below) as nat;
    assert(n_cols + above as nat * n_cols + n_cols + below as nat * n_cols == n_cols
        * body_lines) by (nonlinear_arith)
        requires
            body_lines == above + 2 + below,
            above >= 0,
            below >= 0,
    ;
    assert(body_lines == sheet.cell_h + 1);
    if row == sheet.n_rows - 1 {
        assert forall|col: int| 0 <= col < n_cols implies measures(
            #[trigger] bottom(col),
            1,
            if col == n_cols - 1 {
                1
            } else {
                0
            },
        ) by {
            lemma_classify_by_column_and_row(col, row, n_cols as int, sheet.n_rows as int);
            lemma_facets_match_edges(col, row, n_cols as int, sheet.n_rows as int);
            lemma_cell_measures(
                style,
                style.glyph(Role::BottomLeft),
                style.glyph(Role::BottomJunction),
                style.glyph(Role::BottomRight),
                style.glyph(Role::Horizontal),
                Seq::empty(),
                sheet.position(col, row),
                w,
                plain,
            );
        }
        lemma_line_measures(n_cols, bottom);
        lemma_join_measures(
            body,
            sheet.bottom_line(row),
            n_cols * body_lines,
            body_lines,
            n_cols,
            1,
        );
        assert(n_cols * body_lines + n_cols == n_cols * (sheet.cell_h + 2)) by (nonlinear_arith)
            requires
                body_lines == sheet.cell_h + 1,
        ;
    } else {
        lemma_inner_border_drawn_once(sheet, row);
        assert(measures(sheet.bottom_line(row), 0, 0));
        lemma_join_measures(body, sheet.bottom_line(row), n_cols * body_lines, body_lines, 0, 0);
    }
}

/// The number of lines that a grid is laid out in: a border line above each
/// row, as many lines for each row as a cell is high, and one border line
/// below the last row.
pub open spec fn line_count(n_rows: nat, cell_h: nat) -> nat {
    n_rows * (cell_h + 1) + 1
}

/// The layout of a grid with borders, of at least two columns and two rows,
/// has `line_count` lines: each line has three fragments for each cell of a
/// row, and each line ends with a line break after its last cell.
pub proof fn lemma_grid_lines(sheet: Sheet, texts: Seq<Seq<char>>)
    requires
        sheet.n_cols >= 2,
        sheet.n_rows >= 2,
        sheet.cell_h >= 1,
        !sheet.style.is_none(),
    ensures
        sheet.layout(texts).len() == 3 * (sheet.n_cols * line_count(sheet.n_rows, sheet.cell_h)),
        lines_ended(sheet.layout(texts)) == line_count(sheet.n_rows, sheet.cell_h),
{
    let part = sheet.row_blocks(texts);
    let before = (sheet.n_rows - 1) as nat;
    let lines = sheet.cell_h + 1;
    assert forall|row: int| 0 <= row < before implies measures(
        #[trigger] part(row),
        sheet.n_cols * lines,
        lines,
    ) by {
        lemma_row_measures(sheet, row, texts);
    }
    lemma_concat_measures(before, part, sheet.n_cols * lines, lines);
    lemma_row_measures(sheet, sheet.n_rows - 1, texts);
    lemma_join_measures(
        concat(before, part),
        part(sheet.n_rows - 1),
        before * (sheet.n_cols * lines),
        before * lines,
        sheet.n_cols * (sheet.cell_h + 2),
        sheet.cell_h + 2,
    );
    assert(before * lines + (sheet.cell_h + 2) == sheet.n_rows * (sheet.cell_h + 1) + 1
        && before * (sheet.n_cols * lines) + sheet.n_cols * (sheet.cell_h + 2) == sheet.n_cols
        * (sheet.n_rows * (sheet.cell_h + 1) + 1)) by (nonlinear_arith)
        requires
            before == sheet.n_rows - 1,
            lines == sheet.cell_h + 1,
    ;
}

} // verus!
