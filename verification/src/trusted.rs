//! What the banner takes from outside: the line wrapper, the width
//! measurement and the terminal query of `textwrap`, the colour decorator of
//! `colored`, and `String::push`. Nothing in this file is proved: each
//! contract restates what the outside code is documented to do.

use crate::color::{is_painted, Color};
use colored::{Color as Ink, Colorize};
use vstd::prelude::*;

verus! {

/// `String::push` appends one character to the end of the string.
pub assume_specification[ String::push ](s: &mut String, ch: char)
    ensures
        final(s)@ == old(s)@.push(ch),
;

/// The lines into which `textwrap::wrap` breaks `text` for a budget of
/// `budget` columns, with `indent` as the indent of the first line and of
/// those that follow.
pub uninterp spec fn wrapped_lines(text: Seq<char>, budget: usize, indent: Seq<char>) -> Seq<
    Seq<char>,
>;

/// The number of terminal columns that `textwrap::core::display_width`
/// measures for `text`.
pub uninterp spec fn display_columns(text: Seq<char>) -> usize;

/// Calls `textwrap::wrap` with the options that `textwrap::Options::new`
/// makes for `budget`, and `indent` as both the initial and the subsequent
/// indent. The result depends on these three values only, so the contract
/// names it; it claims nothing about the lines themselves.
#[verifier::external_body]
pub(crate) fn wrap_lines(text: &str, budget: usize, indent: &str) -> (lines: Vec<String>)
    ensures
        lines.deep_view() == wrapped_lines(text@, budget, indent@),
{
    let options = textwrap::Options::new(budget).initial_indent(indent).subsequent_indent(indent);
    textwrap::wrap(text, &options).into_iter().map(|line| line.into_owned()).collect()
}

/// Calls `textwrap::core::display_width`, which adds up the column widths of
/// the characters of `text` and skips ANSI escape sequences. The result
/// depends on the text only, so the contract names it.
#[verifier::external_body]
pub(crate) fn measure(text: &str) -> (columns: usize)
    ensures
        columns == display_columns(text@),
{
    textwrap::core::display_width(text)
}

/// Calls `textwrap::termwidth`: the column count of the terminal that the
/// process is attached to, or 80 where there is none. The terminal reports
/// the count in sixteen bits; nothing else is known of it.
#[verifier::external_body]
pub(crate) fn terminal_columns() -> (columns: usize)
    ensures
        columns <= u16::MAX,
{
    textwrap::termwidth()
}

/// Calls `colored::Colorize::color` on `payload`, with the colour of
/// `colored` that bears the name of `color`, and formats the result.
/// Whether the payload comes back bare or between control sequences is
/// decided by the environment of the process, so the result has no name.
/// For a payload without an escape character the formatter writes the
/// payload alone, or a style sequence, the payload and the reset sequence.
/// The style sequence holds the code of the colour between `ESC [` and
/// `m`: two digits for a named colour, digits and semicolons for a colour
/// given by its parts. The formatter asks once more whether to colour when
/// it makes the style sequence, so the sequence can be missing where
/// another thread switches colouring off in between. (A payload is
/// rewritten only where it holds a reset sequence of its own, which
/// begins with an escape character.)
#[verifier::external_body]
pub(crate) fn paint(payload: &str, color: Color) -> (painted: String)
    ensures
        !payload@.contains('\u{1b}') ==> is_painted(painted@, payload@, color),
{
    let ink = match color {
        Color::Black => Ink::Black, Color::BrightBlack => Ink::BrightBlack,
        Color::Red => Ink::Red, Color::BrightRed => Ink::BrightRed,
        Color::Green => Ink::Green, Color::BrightGreen => Ink::BrightGreen,
        Color::Yellow => Ink::Yellow, Color::BrightYellow => Ink::BrightYellow,
        Color::Blue => Ink::Blue, Color::BrightBlue => Ink::BrightBlue,
        Color::Magenta => Ink::Magenta, Color::BrightMagenta => Ink::BrightMagenta,
        Color::Cyan => Ink::Cyan, Color::BrightCyan => Ink::BrightCyan,
        Color::White => Ink::White, Color::BrightWhite => Ink::BrightWhite,
        Color::TrueColor { r, g, b } => Ink::TrueColor { r, g, b },
    };
    payload.color(ink).to_string()
}

} // verus!
