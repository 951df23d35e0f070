use matrix_display::cell::AnsiColor;
use matrix_display::cell::Cell;
use matrix_display::error::SizeError;
use matrix_display::fragment::Fragment;
use matrix_display::matrix::position::Position;
use matrix_display::matrix::Matrix;
use matrix_display::style::BordersStyle;
use matrix_display::CellDisplay;
use matrix_display::Format;
use matrix_display::MatrixDisplay;

const PLAIN: AnsiColor = AnsiColor { fg: 7, bg: 0 };

fn texts(fragments: &[Fragment]) -> Vec<&str> {
    fragments.iter().map(|f| f.text.as_str()).collect()
}

fn whole_text(fragments: &[Fragment]) -> String {
    fragments.iter().map(|f| f.text.as_str()).collect()
}

fn letters(n_cols: usize, values: &str) -> Matrix<Cell<char>> {
    Matrix::new(
        n_cols,
        values.chars().map(|c| Cell::new(c, 42, 24)).collect::<Vec<_>>(),
    )
}

fn render(format: Format, n_cols: usize, values: &str, style: BordersStyle) -> Vec<Fragment> {
    let mut data = letters(n_cols, values);
    let display = MatrixDisplay::new(&format, &mut data);
    display.render(&style).unwrap()
}

#[test]
fn single_cell_in_light_borders() {
    // The only cell of a grid is its top left corner: it has a border above
    // it and one on its left, and nothing closes it on the right or below.
    let fragments = render(Format::new(3, 1), 1, "F", BordersStyle::Thin);
    assert_eq!(texts(&fragments), vec!["┌", "───", "", "│", " F ", ""]);
    let colors = fragments.iter().map(|f| f.color).collect::<Vec<_>>();
    assert_eq!(
        colors,
        vec![PLAIN, PLAIN, PLAIN, PLAIN, AnsiColor { fg: 42, bg: 24 }, PLAIN]
    );
}

#[test]
fn two_cells_without_borders() {
    let fragments = render(Format::new(1, 1), 2, "AB", BordersStyle::NoBorders);
    assert_eq!(
        texts(&fragments),
        vec!["\0", "\0", "", "\0", "\0", "\0", "\0", "A", "", "\0", "B", "\0\r\n"]
    );
    assert_eq!(whole_text(&fragments).replace('\0', ""), "AB\r\n");
}

#[test]
fn two_by_two_in_light_borders() {
    let fragments = render(Format::new(1, 1), 2, "abcd", BordersStyle::Thin);
    assert_eq!(
        whole_text(&fragments),
        "┌─┬─┐\r\n│a│b│\r\n├─┼─┤\r\n│c│d│\r\n└─┴─┘\r\n"
    );
    assert_eq!(
        texts(&fragments),
        vec![
            "┌", "─", "", "┬", "─", "┐\r\n", "│", "a", "", "│", "b", "│\r\n", "├", "─", "", "┼",
            "─", "┤\r\n", "│", "c", "", "│", "d", "│\r\n", "└", "─", "", "┴", "─", "┘\r\n",
        ]
    );
}

#[test]
fn two_by_two_in_every_style() {
    let format = Format::new(1, 1);
    assert_eq!(
        whole_text(&render(format, 2, "abcd", BordersStyle::Retro)),
        "+-+-+\r\n|a|b|\r\n+-+-+\r\n|c|d|\r\n+-+-+\r\n"
    );
    assert_eq!(
        whole_text(&render(format, 2, "abcd", BordersStyle::Plain)),
        "     \r\n a b \r\n     \r\n c d \r\n     \r\n"
    );
    assert_eq!(
        whole_text(&render(format, 2, "abcd", BordersStyle::Rounded)),
        "╭─┬─╮\r\n│a│b│\r\n├─┼─┤\r\n│c│d│\r\n╰─┴─╯\r\n"
    );
    assert_eq!(
        whole_text(&render(format, 2, "abcd", BordersStyle::Thick)),
        "┏━┳━┓\r\n┃a┃b┃\r\n┣━╋━┫\r\n┃c┃d┃\r\n┗━┻━┛\r\n"
    );
    assert_eq!(
        whole_text(&render(format, 2, "abcd", BordersStyle::Double)),
        "╔═╦═╗\r\n║a║b║\r\n╠═╬═╣\r\n║c║d║\r\n╚═╩═╝\r\n"
    );
    assert_eq!(
        whole_text(&render(format, 2, "abcd", BordersStyle::NoBorders)).replace('\0', ""),
        "ab\r\ncd\r\n"
    );
}

#[test]
fn three_by_three_has_crosses_inside() {
    let fragments = render(Format::new(3, 1), 3, "abcdefghi", BordersStyle::Thin);
    assert_eq!(
        whole_text(&fragments),
        "┌───┬───┬───┐\r\n│ a │ b │ c │\r\n├───┼───┼───┤\r\n│ d │ e │ f │\r\n├───┼───┼───┤\r\n│ g │ h │ i │\r\n└───┴───┴───┘\r\n"
    );
}

#[test]
fn odd_line_of_vertical_padding_goes_above() {
    let fragments = render(Format::new(1, 2), 2, "abcd", BordersStyle::Thin);
    assert_eq!(
        whole_text(&fragments),
        "┌─┬─┐\r\n│ │ │\r\n│a│b│\r\n├─┼─┤\r\n│ │ │\r\n│c│d│\r\n└─┴─┘\r\n"
    );
    let fragments = render(Format::new(1, 3), 2, "abcd", BordersStyle::Thin);
    assert_eq!(
        whole_text(&fragments),
        "┌─┬─┐\r\n│ │ │\r\n│a│b│\r\n│ │ │\r\n├─┼─┤\r\n│ │ │\r\n│c│d│\r\n│ │ │\r\n└─┴─┘\r\n"
    );
}

#[test]
fn padding_has_the_colours_of_its_cell() {
    let format = Format::new(1, 3);
    let mut data = Matrix::new(
        2,
        vec![
            Cell::new('a', 1, 2),
            Cell::new('b', 3, 4),
            Cell::new('c', 5, 6),
            Cell::new('d', 7, 8),
        ],
    );
    let display = MatrixDisplay::new(&format, &mut data);
    let fragments = display.render(&BordersStyle::Thin).unwrap();
    // Each row: a border line, a line of padding, the values, a line of
    // padding; each line has three fragments for each of the two cells.
    let line = |n: usize| fragments[6 * n..6 * n + 6].to_vec();
    let colors = |n: usize| line(n).iter().map(|f| f.color).collect::<Vec<_>>();
    let ab = vec![
        PLAIN,
        AnsiColor { fg: 1, bg: 2 },
        PLAIN,
        PLAIN,
        AnsiColor { fg: 3, bg: 4 },
        PLAIN,
    ];
    assert_eq!(colors(0), vec![PLAIN; 6]);
    assert_eq!(colors(1), ab);
    assert_eq!(colors(2), ab);
    assert_eq!(colors(3), ab);
    assert_eq!(colors(4), vec![PLAIN; 6]);
    assert_eq!(texts(&line(1)), vec!["│", " ", "", "│", " ", "│\r\n"]);
    assert_eq!(fragments.len(), 6 * 9);
}

#[test]
fn without_borders_empty_lines_do_not_break() {
    // Without borders a line breaks only after content: the lines of padding
    // and the border lines, whose content is empty, run on.
    let fragments = render(Format::new(1, 3), 2, "abcd", BordersStyle::NoBorders);
    assert_eq!(
        whole_text(&fragments).replace('\0', ""),
        "  ab\r\n    cd\r\n  "
    );
    let mut data = Matrix::new(2, vec![Cell::new("", 1, 2), Cell::new("", 1, 2)]);
    let format = Format::new(1, 1);
    let display = MatrixDisplay::new(&format, &mut data);
    let fragments = display.render(&BordersStyle::NoBorders).unwrap();
    assert_eq!(whole_text(&fragments).replace('\0', ""), "  ");
    let fragments = display.render(&BordersStyle::Plain).unwrap();
    assert_eq!(whole_text(&fragments), "     \r\n     \r\n");
}

#[test]
fn single_column_never_breaks_the_line() {
    // The cells of a single column lie on the left edge, never on the right:
    // nothing closes them, and no line breaks.
    let mut data = Matrix::new(1, vec![Cell::new("", 1, 2), Cell::new("x", 1, 2)]);
    let format = Format::new(1, 1);
    let display = MatrixDisplay::new(&format, &mut data);
    let fragments = display.render(&BordersStyle::Plain).unwrap();
    assert_eq!(whole_text(&fragments), "       x  ");
    let fragments = display.render(&BordersStyle::Thin).unwrap();
    assert_eq!(whole_text(&fragments), "┌─│ ├─│x└─");
}

#[test]
fn single_row_has_no_border_below() {
    let fragments = render(Format::new(1, 1), 3, "abc", BordersStyle::Thin);
    assert_eq!(whole_text(&fragments), "┌─┬─┬─┐\r\n│a│b│c│\r\n");
}

#[test]
fn content_is_centred_by_columns() {
    let mut data = Matrix::new(
        2,
        vec![
            Cell::new("中", 1, 2),
            Cell::new("ab", 1, 2),
            Cell::new("", 1, 2),
            Cell::new("abcd", 1, 2),
        ],
    );
    let format = Format::new(4, 1);
    let display = MatrixDisplay::new(&format, &mut data);
    let fragments = display.render(&BordersStyle::Retro).unwrap();
    assert_eq!(
        whole_text(&fragments),
        "+----+----+\r\n| 中 | ab |\r\n+----+----+\r\n|    |abcd|\r\n+----+----+\r\n"
    );
}

#[test]
fn numbers_are_displayed_as_text() {
    let mut data = Matrix::new(2, (8..12).map(|x| Cell::new(x, 0, x as u8)).collect::<Vec<_>>());
    let format = Format::new(5, 1);
    let display = MatrixDisplay::new(&format, &mut data);
    assert_eq!(display.cell_texts(), vec!["8", "9", "10", "11"]);
    let fragments = display.render(&BordersStyle::Retro).unwrap();
    assert_eq!(
        whole_text(&fragments),
        "+-----+-----+\r\n|  8  |  9  |\r\n+-----+-----+\r\n|  10 |  11 |\r\n+-----+-----+\r\n"
    );
}

#[test]
fn render_texts_lays_out_the_texts_given() {
    let mut data = letters(2, "abcd");
    let format = Format::new(2, 1);
    let display = MatrixDisplay::new(&format, &mut data);
    let given = vec!["1".to_string(), "22".to_string(), "".to_string(), "4".to_string()];
    let fragments = display.render_texts(&given, &BordersStyle::Retro).unwrap();
    assert_eq!(
        whole_text(&fragments),
        "+--+--+\r\n| 1|22|\r\n+--+--+\r\n|  | 4|\r\n+--+--+\r\n"
    );
    assert_eq!(
        display.render_texts(&given, &BordersStyle::Retro),
        display.render_texts(&given, &BordersStyle::Retro)
    );
}

#[test]
fn text_wider_than_a_cell_is_refused() {
    let mut data = Matrix::new(2, vec![Cell::new("ab", 1, 2), Cell::new("abc", 1, 2)]);
    let format = Format::new(2, 1);
    let display = MatrixDisplay::new(&format, &mut data);
    assert_eq!(display.render(&BordersStyle::Thin), Err(SizeError::ContentTooWide));
    assert_eq!(display.render(&BordersStyle::NoBorders), Err(SizeError::ContentTooWide));
    let mut data = Matrix::new(2, vec![Cell::new("中", 1, 2), Cell::new("a", 1, 2)]);
    let format = Format::new(1, 1);
    let display = MatrixDisplay::new(&format, &mut data);
    assert_eq!(display.render(&BordersStyle::Thin), Err(SizeError::ContentTooWide));
}

#[test]
fn empty_grid_gives_an_empty_layout() {
    let mut data: Matrix<Cell<char>> = Matrix::new(3, Vec::new());
    let format = Format::new(2, 1);
    let display = MatrixDisplay::new(&format, &mut data);
    assert_eq!(display.render(&BordersStyle::Thin), Ok(Vec::new()));
    let mut out = b"kept".to_vec();
    assert_eq!(display.print(&mut out, &BordersStyle::Thin), Ok(()));
    assert_eq!(out, b"kept".to_vec());
}

#[test]
fn display_validity() {
    let mut data = letters(2, "abcd");
    let format = Format::new(2, 1);
    assert!(MatrixDisplay::new(&format, &mut data).is_wf());
    let flat = Format::new(2, 0);
    assert!(!MatrixDisplay::new(&flat, &mut data).is_wf());
    let mut ragged = letters(3, "abcd");
    assert!(!MatrixDisplay::new(&format, &mut ragged).is_wf());
    let display = MatrixDisplay::new(&format, &mut data);
    assert_eq!(display.n_cols(), 2);
    assert_eq!(display.n_rows(), 2);
    assert_eq!(display.width(), 4);
    assert_eq!(display.height(), 2);
}

#[test]
fn print_writes_the_escape_sequences_of_the_colours() {
    let mut data = letters(1, "F");
    let format = Format::new(3, 1);
    let display = MatrixDisplay::new(&format, &mut data);
    let mut out: Vec<u8> = b"> ".to_vec();
    assert_eq!(display.print(&mut out, &BordersStyle::Thin), Ok(()));
    assert_eq!(
        String::from_utf8(out).unwrap(),
        "> \u{1b}[48;5;0;38;5;7m┌───│\u{1b}[48;5;24;38;5;42m F \u{1b}[48;5;0;38;5;7m\u{1b}[0m"
    );
}

#[test]
fn print_agrees_with_painting_the_fragments() {
    let mut data = letters(2, "abcd");
    let format = Format::new(3, 2);
    let display = MatrixDisplay::new(&format, &mut data);
    let fragments = display.render(&BordersStyle::Double).unwrap();
    let painted = fragments
        .iter()
        .map(|f| {
            ansi_term::Colour::Fixed(f.color.fg)
                .on(ansi_term::Colour::Fixed(f.color.bg))
                .paint(f.text.clone())
        })
        .collect::<Vec<_>>();
    let expected = ansi_term::ANSIStrings(&painted).to_string();
    let mut out: Vec<u8> = Vec::new();
    assert_eq!(display.print(&mut out, &BordersStyle::Double), Ok(()));
    assert_eq!(String::from_utf8(out).unwrap(), expected);
}

#[test]
fn print_writes_nothing_where_a_text_is_too_wide() {
    let mut data = Matrix::new(1, vec![Cell::new("abc", 1, 2)]);
    let format = Format::new(2, 1);
    let display = MatrixDisplay::new(&format, &mut data);
    let mut out: Vec<u8> = b"kept".to_vec();
    assert_eq!(
        display.print(&mut out, &BordersStyle::Thin),
        Err(SizeError::ContentTooWide)
    );
    assert_eq!(out, b"kept".to_vec());
}

#[test]
fn lines_of_one_cell() {
    let style = BordersStyle::Thin;
    let cell = CellDisplay::with_borders(&style);
    let color = AnsiColor { fg: 1, bg: 2 };
    assert_eq!(
        texts(&cell.top_cell(&Position::TopLeft, 2).unwrap()),
        vec!["┌", "──", ""]
    );
    assert_eq!(
        texts(&cell.top_cell(&Position::TopRight, 2).unwrap()),
        vec!["┬", "──", "┐\r\n"]
    );
    assert_eq!(
        texts(&cell.top_cell(&Position::Middle, 2).unwrap()),
        vec!["┼", "──", ""]
    );
    assert_eq!(
        texts(&cell.top_cell(&Position::Left, 2).unwrap()),
        vec!["├", "──", ""]
    );
    assert_eq!(
        texts(&cell.top_cell(&Position::BottomRight, 2).unwrap()),
        vec!["┼", "──", "┤\r\n"]
    );
    assert_eq!(
        texts(&cell.bottom_cell(&Position::BottomLeft, 2).unwrap()),
        vec!["└", "──", ""]
    );
    assert_eq!(
        texts(&cell.bottom_cell(&Position::Bottom, 2).unwrap()),
        vec!["┴", "──", ""]
    );
    assert_eq!(
        texts(&cell.bottom_cell(&Position::BottomRight, 2).unwrap()),
        vec!["┴", "──", "┘\r\n"]
    );
    assert_eq!(cell.bottom_cell(&Position::Middle, 2), Ok(Vec::new()));
    assert_eq!(cell.bottom_cell(&Position::TopLeft, 2), Ok(Vec::new()));
    assert_eq!(
        cell.value_cell(&Position::Right, 3, "x", &color),
        Ok(vec![
            Fragment { text: "│".to_string(), color: PLAIN },
            Fragment { text: " x ".to_string(), color: color },
            Fragment { text: "│\r\n".to_string(), color: PLAIN },
        ])
    );
    assert_eq!(
        cell.padding_cell(&Position::Right, 3, &color),
        Ok(vec![
            Fragment { text: "│".to_string(), color: PLAIN },
            Fragment { text: "   ".to_string(), color: color },
            Fragment { text: "│\r\n".to_string(), color: PLAIN },
        ])
    );
}

#[test]
fn cell_refuses_wide_filler_before_wide_content() {
    let style = BordersStyle::Thin;
    let cell = CellDisplay::with_borders(&style);
    let at = Position::Middle;
    assert_eq!(
        cell.cell('a', 'b', 'c', '中', "x", &at, 4, &PLAIN),
        Err(SizeError::FillTooWide)
    );
    assert_eq!(
        cell.cell('a', 'b', 'c', '中', "xxxxx", &at, 4, &PLAIN),
        Err(SizeError::FillTooWide)
    );
    assert_eq!(
        cell.cell('a', 'b', 'c', '.', "xxxxx", &at, 4, &PLAIN),
        Err(SizeError::ContentTooWide)
    );
    assert_eq!(
        texts(&cell.cell('a', 'b', 'c', '.', "x", &at, 4, &PLAIN).unwrap()),
        vec!["b", "..x.", ""]
    );
    assert_eq!(
        texts(&cell.cell('a', 'b', 'c', '.', "x", &Position::TopLeft, 4, &PLAIN).unwrap()),
        vec!["a", "..x.", ""]
    );
    assert_eq!(
        texts(&cell.cell('a', 'b', 'c', '.', "x", &Position::Right, 4, &PLAIN).unwrap()),
        vec!["b", "..x.", "c\r\n"]
    );
}

#[test]
fn line_break_is_left_out_only_without_borders_after_empty_content() {
    let none = BordersStyle::NoBorders;
    let cell = CellDisplay::with_borders(&none);
    let at = Position::Right;
    assert_eq!(
        texts(&cell.value_cell(&at, 1, "", &PLAIN).unwrap()),
        vec!["\0", " ", "\0"]
    );
    assert_eq!(
        texts(&cell.value_cell(&at, 1, "x", &PLAIN).unwrap()),
        vec!["\0", "x", "\0\r\n"]
    );
    let plain = BordersStyle::Plain;
    let cell = CellDisplay::with_borders(&plain);
    assert_eq!(
        texts(&cell.value_cell(&at, 1, "", &PLAIN).unwrap()),
        vec![" ", " ", " \r\n"]
    );
}

#[test]
fn grid_with_borders_has_a_border_line_for_each_row_and_one_more() {
    for (n_cols, n_rows, height) in [(2usize, 2usize, 1usize), (3, 2, 2), (2, 4, 3), (5, 3, 4)] {
        let values = "x".repeat(n_cols * n_rows);
        let fragments = render(Format::new(2, height), n_cols, &values, BordersStyle::Thin);
        let lines = n_rows * (height + 1) + 1;
        assert_eq!(fragments.len(), 3 * n_cols * lines);
        let ended = fragments
            .iter()
            .enumerate()
            .filter(|(i, f)| i % 3 == 2 && f.text.ends_with("\r\n"))
            .count();
        assert_eq!(ended, lines);
        let text = whole_text(&fragments);
        assert_eq!(text.matches("\r\n").count(), lines);
        assert_eq!(text.matches('x').count(), n_cols * n_rows);
        let borders = text
            .split("\r\n")
            .filter(|line| line.contains('─'))
            .count();
        assert_eq!(borders, n_rows + 1);
    }
}

#[test]
fn ascii_glyphs_never_fail_a_layout() {
    let mut data = letters(3, "abcdef");
    let format = Format::new(1, 1);
    let display = MatrixDisplay::new(&format, &mut data);
    assert!(display.render(&BordersStyle::NoBorders).is_ok());
    assert!(display.render(&BordersStyle::Plain).is_ok());
    assert!(display.render(&BordersStyle::Retro).is_ok());
}
