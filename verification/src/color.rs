//! The colours of a text, and what a coloured payload looks like.

use vstd::prelude::*;

verus! {

/// The colour of a text: one of the sixteen named terminal colours, or any
/// colour by its red, green and blue parts.
#[derive(Clone, Copy, Debug, PartialEq, Eq, Structural)]
pub enum Color {
    /// Black.
    Black,
    /// Red.
    Red,
    /// Green.
    Green,
    /// Yellow.
    Yellow,
    /// Blue.
    Blue,
    /// Magenta.
    Magenta,
    /// Cyan.
    Cyan,
    /// White.
    White,
    /// Bright black.
    BrightBlack,
    /// Bright red.
    BrightRed,
    /// Bright green.
    BrightGreen,
    /// Bright yellow.
    BrightYellow,
    /// Bright blue.
    BrightBlue,
    /// Bright magenta.
    BrightMagenta,
    /// Bright cyan.
    BrightCyan,
    /// Bright white.
    BrightWhite,
    /// The colour with the given red, green and blue parts.
    TrueColor {
        /// Red.
        r: u8,
        /// Green.
        g: u8,
        /// Blue.
        b: u8,
    },
}

/// The sequence that ends a run of coloured text.
pub open spec fn reset_sequence() -> Seq<char> {
    seq!['\u{1b}', '[', '0', 'm']
}

/// The sequence that switches the foreground to the colour that `digits`
/// stand for.
pub open spec fn style_sequence(digits: Seq<char>) -> Seq<char> {
    seq!['\u{1b}', '['] + digits + seq!['m']
}

/// Whether `c` may stand inside a style sequence: a digit or a semicolon.
pub open spec fn is_code_char(c: char) -> bool {
    c == ';' || ('0' <= c && c <= '9')
}

/// Whether `digits` may stand for `color` in a style sequence. A named
/// colour has one code of two digits. A colour given by its parts is
/// written out by those parts, or replaced by the nearest named colour,
/// as the terminal allows: either way by digits and semicolons.
pub open spec fn is_code_of(digits: Seq<char>, color: Color) -> bool {
    match color {
        Color::Black => digits == seq!['3', '0'],
        Color::Red => digits == seq!['3', '1'],
        Color::Green => digits == seq!['3', '2'],
        Color::Yellow => digits == seq!['3', '3'],
        Color::Blue => digits == seq!['3', '4'],
        Color::Magenta => digits == seq!['3', '5'],
        Color::Cyan => digits == seq!['3', '6'],
        Color::White => digits == seq!['3', '7'],
        Color::BrightBlack => digits == seq!['9', '0'],
        Color::BrightRed => digits == seq!['9', '1'],
        Color::BrightGreen => digits == seq!['9', '2'],
        Color::BrightYellow => digits == seq!['9', '3'],
        Color::BrightBlue => digits == seq!['9', '4'],
        Color::BrightMagenta => digits == seq!['9', '5'],
        Color::BrightCyan => digits == seq!['9', '6'],
        Color::BrightWhite => digits == seq!['9', '7'],
        Color::TrueColor { .. } => digits.len() >= 2 && forall|i: int|
            0 <= i < digits.len() ==> is_code_char(#[trigger] digits[i]),
    }
}

/// Whether `painted` is `payload` in `color`, or `payload` left as it is:
/// the payload alone, or a style sequence for the colour, the payload and
/// the reset sequence. The style sequence is missing before the payload,
/// and the reset sequence still there, only where colouring is switched
/// off while the text is being formatted.
pub open spec fn is_painted(painted: Seq<char>, payload: Seq<char>, color: Color) -> bool {
    ||| painted == payload
    ||| painted == payload + reset_sequence()
    ||| exists|digits: Seq<char>|
        is_code_of(digits, color) && painted == #[trigger] style_sequence(digits) + payload
            + reset_sequence()
}

} // verus!
