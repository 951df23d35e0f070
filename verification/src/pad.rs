//! Centring content in a slot of fixed size.
//!
//! The slack that the content leaves is split in two halves. Where it is odd,
//! the extra unit goes before the content: to the left, or to the top.
//! Text is measured in columns of the terminal, not in characters: a wide
//! glyph takes two.

use crate::error::SizeError;
use unicode_width::UnicodeWidthChar;
use unicode_width::UnicodeWidthStr;
use vstd::prelude::*;

verus! {

/// The number of columns that `unicode_width` measures for a text.
pub uninterp spec fn str_width(text: Seq<char>) -> usize;

/// The number of columns that `unicode_width` measures for one character, or
/// `None` for a control character.
pub uninterp spec fn char_width(glyph: char) -> Option<usize>;

/// Calls `unicode_width`'s `UnicodeWidthStr::width`, which folds over the
/// characters of the text from a sum of zero. Nothing is proved of it: the
/// result is taken to be what `str_width` stands for, and zero for the empty
/// text.
#[verifier::external_body]
fn measure_str(text: &str) -> (columns: usize)
    ensures
        columns == str_width(text@),
        text@.len() == 0 ==> columns == 0,
{
    UnicodeWidthStr::width(text)
}

/// Calls `unicode_width`'s `UnicodeWidthChar::width`. Nothing is proved of it:
/// the result is taken to be what `char_width` stands for. The characters
/// below U+0020 are control codes and have no width; those from U+0020 up to
/// U+007E take one column.
#[verifier::external_body]
fn measure_char(glyph: char) -> (columns: Option<usize>)
    ensures
        columns == char_width(glyph),
        (glyph as u32) < 0x20 ==> columns is None,
        0x20 <= glyph as u32 && (glyph as u32) < 0x7f ==> columns == Some(1usize),
{
    UnicodeWidthChar::width(glyph)
}

/// `String::push` of the standard library appends one character to a string.
/// Nothing is proved of it.
pub assume_specification[ String::push ](text: &mut String, glyph: char)
    ensures
        final(text)@ == old(text)@.push(glyph),
;

/// The columns that a text takes on the screen: none for the empty text.
pub open spec fn text_cols(text: Seq<char>) -> nat {
    if text.len() == 0 {
        0
    } else {
        str_width(text) as nat
    }
}

/// The columns that a glyph takes on the screen. A control character takes
/// none, and so does NUL, the mark of an absent border. A printable character
/// of ASCII takes one.
pub open spec fn glyph_cols(glyph: char) -> nat {
    if (glyph as u32) < 0x20 {
        0
    } else if (glyph as u32) < 0x7f {
        1
    } else {
        match char_width(glyph) {
            Some(columns) => columns as nat,
            None => 0,
        }
    }
}

/// The filler before the content: half of the slack, and the odd unit.
pub open spec fn pad_before(total: int, content: int) -> int {
    (total - content) / 2 + (total - content) % 2
}

/// The filler after the content: half of the slack.
pub open spec fn pad_after(total: int, content: int) -> int {
    (total - content) / 2
}

/// A glyph repeated `count` times.
pub open spec fn repeated(glyph: char, count: int) -> Seq<char> {
    Seq::new(
        if count < 0 {
            0
        } else {
            count as nat
        },
        |i: int| glyph,
    )
}

/// A text centred in `width` columns with a filler glyph.
pub open spec fn padded(width: int, text: Seq<char>, fill: char) -> Seq<char> {
    repeated(fill, pad_before(width, text_cols(text) as int)) + text + repeated(
        fill,
        pad_after(width, text_cols(text) as int),
    )
}

/// What centring a text gives: the padded text, or the reason why it cannot
/// be centred. The filler is looked at first.
pub open spec fn padded_result(width: int, text: Seq<char>, fill: char) -> Result<
    Seq<char>,
    SizeError,
> {
    if glyph_cols(fill) > 1 {
        Err(SizeError::FillTooWide)
    } else if text_cols(text) > width {
        Err(SizeError::ContentTooWide)
    } else {
        Ok(padded(width, text, fill))
    }
}

/// A text, or the reason why there is none, as a value of mathematics.
pub open spec fn text_result(out: Result<String, SizeError>) -> Result<Seq<char>, SizeError> {
    match out {
        Ok(text) => Ok(text@),
        Err(e) => Err(e),
    }
}

/// The columns that a text takes on the screen.
pub fn display_width(text: &str) -> (columns: usize)
    ensures
        columns == text_cols(text@),
{
    measure_str(text)
}

/// The columns that a glyph takes on the screen.
pub fn glyph_width(glyph: char) -> (columns: usize)
    ensures
        columns == glyph_cols(glyph),
{
    match measure_char(glyph) {
        Some(columns) => columns,
        None => 0,
    }
}

/// The amounts of filler that centre content in a slot.
#[derive(Clone, Copy, Debug, PartialEq, Eq)]
pub struct Pad {
    pub before: usize,
    pub after: usize,
}

impl Pad {
    /// Centres content of size `content` in a slot of size `total`.
    ///
    /// The two amounts and the content fill the slot exactly, and the amount
    /// before the content is the one after it or one more.
    pub fn new(total: usize, content: usize) -> (pad: Pad)
        requires
            content <= total,
        ensures
            pad.before == pad_before(total as int, content as int),
            pad.after == pad_after(total as int, content as int),
            pad.before + content + pad.after == total,
            pad.before - pad.after == 0 || pad.before - pad.after == 1,
    {
        Pad {
            before: (total - content) / 2 + (total - content) % 2,
            after: (total - content) / 2,
        }
    }

    /// Centres content of size `content` in a slot of size `total`, or refuses
    /// content that is larger than the slot.
    pub fn try_new(total: usize, content: usize) -> (pad: Result<Pad, SizeError>)
        ensures
            content > total <==> pad matches Err(SizeError::ContentTooWide),
            content <= total <==> pad is Ok,
            pad matches Ok(p) ==> p.before == pad_before(total as int, content as int)
                && p.after == pad_after(total as int, content as int),
    {
        if content > total {
            Err(SizeError::ContentTooWide)
        } else {
            Ok(Pad::new(total, content))
        }
    }
}

/// The filler on both sides and the content fill the slot exactly, and the
/// filler before the content is the one after it or one more.
pub proof fn lemma_pad_fills_slot(total: int, content: int)
    requires
        0 <= content <= total,
    ensures
        pad_before(total, content) + content + pad_after(total, content) == total,
        pad_before(total, content) - pad_after(total, content) == 0 || pad_before(total, content)
            - pad_after(total, content) == 1,
        pad_after(total, content) >= 0,
{
}

/// Centring the empty text leaves the filler alone, `width` times.
pub proof fn lemma_padded_empty(width: int, fill: char)
    requires
        0 <= width,
    ensures
        padded(width, Seq::empty(), fill) == repeated(fill, width),
{
    assert(padded(width, Seq::empty(), fill) =~= repeated(fill, width));
}

/// Appends `count` copies of a glyph to a text.
fn push_repeated(text: &mut String, glyph: char, count: usize)
    ensures
        final(text)@ == old(text)@ + repeated(glyph, count as int),
{
    let mut done: usize = 0;
    while done < count
        invariant
            done <= count,
            text@ == old(text)@ + repeated(glyph, done as int),
        decreases count - done,
    {
        text.push(glyph);
        done = done + 1;
    }
}

/// Centres a text in `width` columns of the screen, with `c` as the filler on
/// both sides.
///
/// The text must fit in the width, and the filler must not take more than one
/// column.
pub fn horizontal_pad(width: usize, s: &str, c: char) -> (out: String)
    requires
        glyph_cols(c) <= 1,
        text_cols(s@) <= width,
    ensures
        out@ == padded(width as int, s@, c),
{
    let pad = Pad::new(width, display_width(s));
    let mut out = String::new();
    push_repeated(&mut out, c, pad.before);
    out.append(s);
    push_repeated(&mut out, c, pad.after);
    out
}

/// Centres a text in `width` columns of the screen, with `c` as the filler on
/// both sides, or says why it cannot: the filler takes more than one column,
/// or else the text is wider than `width`.
pub fn try_horizontal_pad(width: usize, s: &str, c: char) -> (out: Result<String, SizeError>)
    ensures
        text_result(out) == padded_result(width as int, s@, c),
{
    if glyph_width(c) > 1 {
        Err(SizeError::FillTooWide)
    } else if display_width(s) > width {
        Err(SizeError::ContentTooWide)
    } else {
        Ok(horizontal_pad(width, s, c))
    }
}

} // verus!
