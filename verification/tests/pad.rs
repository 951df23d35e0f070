use matrix_display::error::SizeError;
use matrix_display::pad::display_width;
use matrix_display::pad::glyph_width;
use matrix_display::pad::horizontal_pad;
use matrix_display::pad::try_horizontal_pad;
use matrix_display::pad::Pad;

#[test]
fn adds_up_to_correct_size() {
    let pad = Pad::new(12, 3);
    assert_eq!(12, pad.before + 3 + pad.after);
}

#[test]
fn centered() {
    let pad = Pad::new(10, 2);
    assert_eq!(4, pad.before);
    assert_eq!(4, pad.after);
}

#[test]
fn odd_total() {
    let pad = Pad::new(11, 3);
    assert_eq!(4, pad.before);
    assert_eq!(4, pad.after);
}

#[test]
fn no_pad_even() {
    let pad = Pad::new(4, 4);
    assert_eq!(0, pad.before);
    assert_eq!(0, pad.after);
}

#[test]
fn no_pad_odd() {
    let pad = Pad::new(1, 1);
    assert_eq!(0, pad.before);
    assert_eq!(0, pad.after);
}

#[test]
fn pad_ascii() {
    let output = horizontal_pad(8, "ascii", ' ');
    assert_eq!(output, "  ascii ");
}

#[test]
fn pad_cjk() {
    let output = horizontal_pad(8, "中文", ' ');
    assert_eq!(output, "  中文  ");
}

#[test]
fn odd_slack_goes_before() {
    let pad = Pad::new(10, 3);
    assert_eq!(4, pad.before);
    assert_eq!(3, pad.after);
    let pad = Pad::new(1, 0);
    assert_eq!(1, pad.before);
    assert_eq!(0, pad.after);
}

#[test]
fn pad_fills_the_slot_for_every_size() {
    for total in 0..20usize {
        for content in 0..=total {
            let pad = Pad::new(total, content);
            assert_eq!(total, pad.before + content + pad.after);
            assert!(pad.before - pad.after <= 1);
        }
    }
}

#[test]
fn try_new_refuses_content_larger_than_the_slot() {
    assert_eq!(Pad::try_new(2, 3), Err(SizeError::ContentTooWide));
    assert_eq!(Pad::try_new(3, 3), Ok(Pad { before: 0, after: 0 }));
    assert_eq!(Pad::try_new(10, 3), Ok(Pad { before: 4, after: 3 }));
}

#[test]
fn text_is_measured_in_columns() {
    assert_eq!(display_width(""), 0);
    assert_eq!(display_width("ascii"), 5);
    assert_eq!(display_width("中文"), 4);
    assert_eq!(glyph_width(' '), 1);
    assert_eq!(glyph_width('\0'), 0);
    assert_eq!(glyph_width('+'), 1);
    assert_eq!(glyph_width('─'), 1);
    assert_eq!(glyph_width('中'), 2);
}

#[test]
fn pad_empty_text_is_all_filler() {
    assert_eq!(horizontal_pad(3, "", '-'), "---");
    assert_eq!(horizontal_pad(0, "", '-'), "");
    assert_eq!(horizontal_pad(2, "", '\0'), "\0\0");
}

#[test]
fn try_pad_refuses_wide_filler_and_wide_text() {
    assert_eq!(try_horizontal_pad(8, "ascii", '中'), Err(SizeError::FillTooWide));
    assert_eq!(try_horizontal_pad(4, "ascii", ' '), Err(SizeError::ContentTooWide));
    assert_eq!(try_horizontal_pad(3, "中文", ' '), Err(SizeError::ContentTooWide));
    assert_eq!(try_horizontal_pad(2, "ascii", '中'), Err(SizeError::FillTooWide));
    assert_eq!(try_horizontal_pad(8, "ascii", ' '), Ok("  ascii ".to_string()));
    assert_eq!(try_horizontal_pad(5, "ascii", ' '), Ok("ascii".to_string()));
}
