//! The banner as mathematics: what each row holds, and how the rows make
//! up the rendered text. Columns are counted in characters for the rows
//! that the layout draws by itself (the glyphs are taken to be one column
//! wide), and by the measured width for the rows of a text block.

use crate::frame::{BoxSymbols, Padding};
use crate::text::TextAlign;
use vstd::prelude::*;

verus! {

/// `count` copies of `glyph`.
pub open spec fn repeated(glyph: char, count: nat) -> Seq<char> {
    Seq::new(count, |i: int| glyph)
}

/// What is left of `total` columns once `taken` of them are used: nothing
/// where more are taken than there are.
pub open spec fn room(total: int, taken: int) -> nat {
    if total > taken {
        (total - taken) as nat
    } else {
        0
    }
}

/// A row that runs from `left` to `right` with `rule` in between. It is
/// `width` characters long where `width` is at least two.
pub open spec fn border_row(left: char, rule: char, right: char, width: usize) -> Seq<char> {
    seq![left] + repeated(rule, room(width as int, 2)) + seq![right]
}

/// An interior row without content: blanks between two vertical rules.
pub open spec fn blank_row(rule: char, width: usize) -> Seq<char> {
    border_row(rule, ' ', rule, width)
}

/// `count` blank rows.
pub open spec fn blank_rows(count: nat, rule: char, width: usize) -> Seq<Seq<char>> {
    Seq::new(count, |i: int| blank_row(rule, width))
}

/// What stands in front of every physical row of a text block: the
/// vertical rule and the left padding.
pub open spec fn indent_prefix(rule: char, left: u8) -> Seq<char> {
    seq![rule] + repeated(' ', left as nat)
}

/// A divider: the indent, `glyph` over the columns between the paddings,
/// the right padding and the closing rule.
pub open spec fn divider_row(rule: char, glyph: char, padding: Padding, width: usize) -> Seq<char> {
    indent_prefix(rule, padding.left) + repeated(
        glyph,
        room(width as int, 2 + padding.left + padding.right),
    ) + repeated(' ', padding.right as nat) + seq![rule]
}

/// The columns that are left for a wrapped line, indent included: the width
/// less the right padding and the closing rule.
pub open spec fn wrap_budget(width: usize, right: u8) -> usize {
    room(width as int, right + 1) as usize
}

/// The columns by which `align` moves a text of `len` bytes to the right,
/// before the right padding is taken off.
pub open spec fn align_offset(align: TextAlign, width: usize, right: u8, len: nat) -> nat {
    match align {
        TextAlign::Left => 0,
        TextAlign::Right => room(width as int, 2 + right as int + len as int),
        TextAlign::Center => room(width as int, 2 + len as int) / 2,
    }
}

/// The number of blanks put in front of a text of `len` bytes. A text
/// longer than the whole width gets none; otherwise the offset of the
/// alignment is reduced by the right padding.
pub open spec fn leading_blanks(align: TextAlign, width: usize, right: u8, len: nat) -> nat {
    if len > width {
        0
    } else {
        room(align_offset(align, width, right, len) as int, right as int)
    }
}

/// The blanks that fill a line of `columns` measured columns up to the
/// closing rule.
pub open spec fn fill(columns: usize, width: usize) -> nat {
    room(width as int, 1 + columns)
}

/// A physical row of a text block: the line as it came back from wrapping
/// and styling, the fill, and the closing rule.
pub open spec fn text_row(line: Seq<char>, columns: usize, rule: char, width: usize) -> Seq<char> {
    line + repeated(' ', fill(columns, width)) + seq![rule]
}

/// A content line once the outside services have done their part.
pub enum BlockView {
    /// A text block: its physical lines, each with its measured columns.
    Text(Seq<(Seq<char>, usize)>),
    /// A divider drawn with the given glyph.
    Divider(char),
}

/// One row for each physical line of a text block.
pub open spec fn line_rows(lines: Seq<(Seq<char>, usize)>, rule: char, width: usize) -> Seq<
    Seq<char>,
> {
    Seq::new(lines.len(), |j: int| text_row(lines[j].0, lines[j].1, rule, width))
}

/// The rows of a text block. A block without lines still takes one row,
/// which is empty.
pub open spec fn text_rows(lines: Seq<(Seq<char>, usize)>, rule: char, width: usize) -> Seq<
    Seq<char>,
> {
    if lines.len() == 0 {
        seq![Seq::<char>::empty()]
    } else {
        line_rows(lines, rule, width)
    }
}

/// The rows that one content line takes.
pub open spec fn block_rows(
    block: BlockView,
    symbols: BoxSymbols,
    padding: Padding,
    width: usize,
) -> Seq<Seq<char>> {
    match block {
        BlockView::Text(lines) => text_rows(lines, symbols.v, width),
        BlockView::Divider(glyph) => seq![divider_row(symbols.v, glyph, padding, width)],
    }
}

/// The rows of all content lines, in the order in which they were added.
pub open spec fn body_rows(
    blocks: Seq<BlockView>,
    symbols: BoxSymbols,
    padding: Padding,
    width: usize,
) -> Seq<Seq<char>>
    decreases blocks.len(),
{
    if blocks.len() == 0 {
        Seq::empty()
    } else {
        body_rows(blocks.drop_last(), symbols, padding, width) + block_rows(
            blocks.last(),
            symbols,
            padding,
            width,
        )
    }
}

/// The top border of the banner.
pub open spec fn top_border(symbols: BoxSymbols, width: usize) -> Seq<char> {
    border_row(symbols.tl, symbols.h, symbols.tr, width)
}

/// The bottom border of the banner.
pub open spec fn bottom_border(symbols: BoxSymbols, width: usize) -> Seq<char> {
    border_row(symbols.bl, symbols.h, symbols.br, width)
}

/// Every row above the bottom border: the top border, the top padding, the
/// content and the bottom padding.
pub open spec fn upper_rows(
    symbols: BoxSymbols,
    padding: Padding,
    width: usize,
    blocks: Seq<BlockView>,
) -> Seq<Seq<char>> {
    seq![top_border(symbols, width)] + blank_rows(padding.top as nat, symbols.v, width)
        + body_rows(blocks, symbols, padding, width) + blank_rows(
        padding.bottom as nat,
        symbols.v,
        width,
    )
}

/// All rows of the banner, from the top border to the bottom border.
pub open spec fn banner_rows(
    symbols: BoxSymbols,
    padding: Padding,
    width: usize,
    blocks: Seq<BlockView>,
) -> Seq<Seq<char>> {
    upper_rows(symbols, padding, width, blocks).push(bottom_border(symbols, width))
}

/// The rows one after the other, each followed by a newline.
pub open spec fn stacked(rows: Seq<Seq<char>>) -> Seq<char>
    decreases rows.len(),
{
    if rows.len() == 0 {
        Seq::empty()
    } else {
        stacked(rows.drop_last()) + rows.last() + seq!['\n']
    }
}

/// The rows joined by newlines, with none after the last row.
pub open spec fn joined(rows: Seq<Seq<char>>) -> Seq<char> {
    if rows.len() == 0 {
        Seq::empty()
    } else {
        stacked(rows.drop_last()) + rows.last()
    }
}

/// The text of the banner.
pub open spec fn banner_text(
    symbols: BoxSymbols,
    padding: Padding,
    width: usize,
    blocks: Seq<BlockView>,
) -> Seq<char> {
    joined(banner_rows(symbols, padding, width, blocks))
}

/// Stacking one more row appends the row and a newline.
pub proof fn lemma_stacked_push(rows: Seq<Seq<char>>, row: Seq<char>)
    ensures
        stacked(rows.push(row)) == stacked(rows) + row + seq!['\n'],
{
    assert(rows.push(row).drop_last() == rows);
}

/// A single row stacks to the row and a newline.
pub proof fn lemma_stacked_single(row: Seq<char>)
    ensures
        stacked(seq![row]) == row + seq!['\n'],
{
    assert(stacked(seq![row].drop_last()) == Seq::<char>::empty());
}

/// Stacking distributes over concatenation.
pub proof fn lemma_stacked_concat(first: Seq<Seq<char>>, second: Seq<Seq<char>>)
    ensures
        stacked(first + second) == stacked(first) + stacked(second),
    decreases second.len(),
{
    if second.len() > 0 {
        lemma_stacked_concat(first, second.drop_last());
        assert((first + second).drop_last() == first + second.drop_last());
    }
}

/// The rows of the content lines up to and including `blocks[count]` are
/// those of the lines before it, followed by its own.
pub proof fn lemma_body_rows_step(
    blocks: Seq<BlockView>,
    count: int,
    symbols: BoxSymbols,
    padding: Padding,
    width: usize,
)
    requires
        0 <= count < blocks.len(),
    ensures
        body_rows(blocks.take(count + 1), symbols, padding, width) == body_rows(
            blocks.take(count),
            symbols,
            padding,
            width,
        ) + block_rows(blocks[count], symbols, padding, width),
{
    assert(blocks.take(count + 1).drop_last() == blocks.take(count));
}

} // verus!
