//! The glyphs that draw the outline and the margins kept inside it.

use vstd::prelude::*;

verus! {

/// The six glyphs of the outline. Each is taken to be one column wide.
pub struct BoxSymbols {
    /// Top left corner.
    pub tl: char,
    /// Top right corner.
    pub tr: char,
    /// Bottom left corner.
    pub bl: char,
    /// Bottom right corner.
    pub br: char,
    /// Horizontal rule.
    pub h: char,
    /// Vertical rule.
    pub v: char,
}

impl BoxSymbols {
    /// The light line set.
    pub open spec fn light() -> BoxSymbols {
        BoxSymbols { tl: '┌', tr: '┐', bl: '└', br: '┘', h: '─', v: '│' }
    }

    /// The heavy line set.
    pub open spec fn heavy() -> BoxSymbols {
        BoxSymbols { tl: '┏', tr: '┓', bl: '┗', br: '┛', h: '━', v: '┃' }
    }

    /// Creates box symbols with a strong line.
    pub fn strong() -> (symbols: Self)
        ensures
            symbols == Self::heavy(),
    {
        Self { tl: '┏', tr: '┓', bl: '┗', br: '┛', h: '━', v: '┃' }
    }
}

impl Default for BoxSymbols {
    /// Creates box symbols with a light line.
    fn default() -> (symbols: Self)
        ensures
            symbols == Self::light(),
    {
        Self { tl: '┌', tr: '┐', bl: '└', br: '┘', h: '─', v: '│' }
    }
}

/// Padding inside the banner outline, in rows (top, bottom) and columns
/// (left, right).
pub struct Padding {
    /// Top padding.
    pub top: u8,
    /// Right padding.
    pub right: u8,
    /// Bottom padding.
    pub bottom: u8,
    /// Left padding.
    pub left: u8,
}

impl Padding {
    /// Creates padding with a value of one for each edge.
    pub fn one() -> (padding: Self)
        ensures
            padding == (Padding { top: 1, right: 1, bottom: 1, left: 1 }),
    {
        Self { top: 1, right: 1, bottom: 1, left: 1 }
    }
}

impl Default for Padding {
    /// No padding on any edge.
    fn default() -> (padding: Self)
        ensures
            padding == (Padding { top: 0, right: 0, bottom: 0, left: 0 }),
    {
        Self { top: 0, right: 0, bottom: 0, left: 0 }
    }
}

} // verus!
