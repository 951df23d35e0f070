//! Spans of text that share one pair of colours: what a layout is made of.

use crate::cell::AnsiColor;
use crate::error::SizeError;
use ansi_term::Colour::Fixed;
use vstd::prelude::*;

verus! {

/// A span of text and the colours it is shown in.
#[derive(Debug, PartialEq, Eq)]
pub struct Fragment {
    pub text: String,
    pub color: AnsiColor,
}

/// A fragment as a value of mathematics: its characters and its colours.
#[verifier::ext_equal]
pub struct FragmentView {
    pub text: Seq<char>,
    pub color: AnsiColor,
}

impl DeepView for Fragment {
    type V = FragmentView;

    open spec fn deep_view(&self) -> FragmentView {
        FragmentView { text: self.text@, color: self.color }
    }
}

impl Clone for Fragment {
    /// The copy has the same text and the same colours.
    fn clone(&self) -> (copy: Fragment)
        ensures
            copy == *self,
    {
        Fragment { text: self.text.clone(), color: self.color }
    }
}

/// Fragments, or the reason why there are none, as values of mathematics.
pub open spec fn fragments_result(out: Result<Vec<Fragment>, SizeError>) -> Result<
    Seq<FragmentView>,
    SizeError,
> {
    match out {
        Ok(fragments) => Ok(fragments.deep_view()),
        Err(e) => Err(e),
    }
}

/// The text with escape sequences that `ansi_term` writes for a sequence of
/// fragments.
pub uninterp spec fn ansi_text(fragments: Seq<FragmentView>) -> Seq<char>;

/// Paints each fragment with `ansi_term`, its foreground colour on its
/// background colour out of the palette of 256, and formats them together as
/// `ANSIStrings`, which writes no more escape sequences than the changes of
/// colour need. Nothing is proved of it: the result is taken to be the text
/// that `ansi_text` stands for.
#[verifier::external_body]
pub(crate) fn ansi_paint(fragments: &Vec<Fragment>) -> (text: String)
    ensures
        text@ == ansi_text(fragments.deep_view()),
{
    let painted: Vec<ansi_term::ANSIString<'_>> = fragments
        .iter()
        .map(|f| Fixed(f.color.fg).on(Fixed(f.color.bg)).paint(f.text.as_str()))
        .collect();
    format!("{}", ansi_term::ANSIStrings(&painted))
}

} // verus!
