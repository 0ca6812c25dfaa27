//! What holds of every banner: the borders, the width of the rows between
//! them, the arithmetic of alignment, and that a rendering is determined by
//! the banner and by what came from outside.

use crate::banner::{has_rule, is_decoration, physical_lines, styled_line, Banner, Line};
use crate::color::{is_code_of, is_painted, reset_sequence, style_sequence};
use crate::frame::{BoxSymbols, Padding};
use crate::layout::{
    align_offset, banner_rows, banner_text, blank_row, blank_rows, block_rows, body_rows,
    border_row, bottom_border, divider_row, fill, indent_prefix, leading_blanks,
    lemma_stacked_concat, lemma_stacked_single, repeated, room, stacked, text_row, top_border,
    upper_rows, wrap_budget, BlockView,
};
use crate::text::{Text, TextAlign};
use crate::trusted::display_columns;
use vstd::prelude::*;

verus! {

/// The rows between the top border and the bottom border.
pub open spec fn interior_rows(
    symbols: BoxSymbols,
    padding: Padding,
    width: usize,
    blocks: Seq<BlockView>,
) -> Seq<Seq<char>> {
    blank_rows(padding.top as nat, symbols.v, width) + body_rows(blocks, symbols, padding, width)
        + blank_rows(padding.bottom as nat, symbols.v, width)
}

/// A border row is `width` characters long at any width of two or more. It
/// begins with the left corner, ends with the right corner, and holds the
/// horizontal glyph everywhere in between.
pub proof fn lemma_border_row_shape(left: char, rule: char, right: char, width: usize)
    ensures
        width >= 2 ==> border_row(left, rule, right, width).len() == width,
        border_row(left, rule, right, width).len() >= 2,
        border_row(left, rule, right, width).first() == left,
        border_row(left, rule, right, width).last() == right,
        forall|i: int|
            0 < i < border_row(left, rule, right, width).len() - 1 ==> border_row(
                left,
                rule,
                right,
                width,
            )[i] == rule,
{
}

/// The first row of a banner is the top border and the last row is the
/// bottom border, whatever the content. The text of the banner is the top
/// border, then every interior row, each of these followed by a newline,
/// and then the bottom border with no newline after it.
pub proof fn lemma_banner_borders(
    symbols: BoxSymbols,
    padding: Padding,
    width: usize,
    blocks: Seq<BlockView>,
)
    ensures
        banner_rows(symbols, padding, width, blocks).len() >= 2,
        banner_rows(symbols, padding, width, blocks).first() == top_border(symbols, width),
        banner_rows(symbols, padding, width, blocks).last() == bottom_border(symbols, width),
        banner_rows(symbols, padding, width, blocks) == seq![top_border(symbols, width)]
            + interior_rows(symbols, padding, width, blocks) + seq![bottom_border(symbols, width)],
        banner_text(symbols, padding, width, blocks) == top_border(symbols, width) + seq!['\n']
            + stacked(interior_rows(symbols, padding, width, blocks)) + bottom_border(
            symbols,
            width,
        ),
{
    let top = top_border(symbols, width);
    let bottom = bottom_border(symbols, width);
    let inner = interior_rows(symbols, padding, width, blocks);
    let upper = upper_rows(symbols, padding, width, blocks);
    assert(upper == seq![top] + inner);
    assert(upper.push(bottom).drop_last() == upper);
    lemma_stacked_concat(seq![top], inner);
    lemma_stacked_single(top);
}

/// Whether `row` is a row between the borders that has a known origin: a
/// blank row of the padding, or one of the rows of a content line.
pub open spec fn is_interior_row(
    row: Seq<char>,
    symbols: BoxSymbols,
    padding: Padding,
    width: usize,
    blocks: Seq<BlockView>,
) -> bool {
    ||| row == blank_row(symbols.v, width)
    ||| exists|i: int|
        0 <= i < blocks.len() && #[trigger] block_rows(
            blocks[i],
            symbols,
            padding,
            width,
        ).contains(row)
}

/// Every row of the content is a row of one of the content lines.
pub proof fn lemma_body_row_origin(
    blocks: Seq<BlockView>,
    symbols: BoxSymbols,
    padding: Padding,
    width: usize,
    k: int,
)
    requires
        0 <= k < body_rows(blocks, symbols, padding, width).len(),
    ensures
        exists|i: int|
            0 <= i < blocks.len() && #[trigger] block_rows(
                blocks[i],
                symbols,
                padding,
                width,
            ).contains(body_rows(blocks, symbols, padding, width)[k]),
    decreases blocks.len(),
{
    let before = body_rows(blocks.drop_last(), symbols, padding, width);
    let row = body_rows(blocks, symbols, padding, width)[k];
    if k < before.len() {
        lemma_body_row_origin(blocks.drop_last(), symbols, padding, width, k);
        let i = choose|i: int|
            0 <= i < blocks.drop_last().len() && #[trigger] block_rows(
                blocks.drop_last()[i],
                symbols,
                padding,
                width,
            ).contains(before[k]);
        assert(blocks.drop_last()[i] == blocks[i]);
    } else {
        assert(block_rows(blocks[blocks.len() - 1], symbols, padding, width).contains(row));
    }
}

/// Every row between the borders is a blank row or a row of one of the
/// content lines. What such rows look like is stated by
/// `lemma_border_row_shape`, `lemma_divider_row_shape` and
/// `lemma_text_rows_shape`.
pub proof fn lemma_interior_row_origin(
    symbols: BoxSymbols,
    padding: Padding,
    width: usize,
    blocks: Seq<BlockView>,
    k: int,
)
    requires
        0 <= k < interior_rows(symbols, padding, width, blocks).len(),
    ensures
        is_interior_row(
            interior_rows(symbols, padding, width, blocks)[k],
            symbols,
            padding,
            width,
            blocks,
        ),
{
    let body = body_rows(blocks, symbols, padding, width);
    let top = padding.top as int;
    if top <= k < top + body.len() {
        lemma_body_row_origin(blocks, symbols, padding, width, k - top);
    }
}

/// At any width that holds the two rules and both paddings, a divider is
/// `width` characters long. It begins and ends with the vertical rule, has
/// blanks over the paddings and the glyph everywhere else.
pub proof fn lemma_divider_row_shape(rule: char, glyph: char, padding: Padding, width: usize)
    requires
        width >= 2 + padding.left + padding.right,
    ensures
        divider_row(rule, glyph, padding, width).len() == width,
        divider_row(rule, glyph, padding, width).first() == rule,
        divider_row(rule, glyph, padding, width).last() == rule,
        forall|i: int|
            1 <= i <= padding.left ==> divider_row(rule, glyph, padding, width)[i] == ' ',
        forall|i: int|
            padding.left < i < width - 1 - padding.right ==> divider_row(
                rule,
                glyph,
                padding,
                width,
            )[i] == glyph,
        forall|i: int|
            width - 1 - padding.right <= i < width - 1 ==> divider_row(
                rule,
                glyph,
                padding,
                width,
            )[i] == ' ',
{
}

/// A divider drawn with a blank is the blank row, at any width that holds
/// the two rules and both paddings.
pub proof fn lemma_blank_divider_is_blank_row(rule: char, padding: Padding, width: usize)
    requires
        width >= 2 + padding.left + padding.right,
    ensures
        divider_row(rule, ' ', padding, width) == blank_row(rule, width),
{
}

/// A physical row of a text block is the line, the fill and the closing
/// rule. It begins as the line begins. Where the line measures fewer
/// columns than the width, its columns, the fill and the one column of the
/// rule add up to the width; where it measures more, there is no fill.
pub proof fn lemma_text_row_shape(line: Seq<char>, columns: usize, rule: char, width: usize)
    ensures
        text_row(line, columns, rule, width).len() == line.len() + fill(columns, width) + 1,
        text_row(line, columns, rule, width).last() == rule,
        text_row(line, columns, rule, width).subrange(0, line.len() as int) == line,
        forall|i: int|
            line.len() <= i < line.len() + fill(columns, width) ==> text_row(
                line,
                columns,
                rule,
                width,
            )[i] == ' ',
        columns < width ==> columns + fill(columns, width) + 1 == width,
        columns >= width ==> fill(columns, width) == 0,
{
}

/// The rows of a text block with at least one line are the rows of its
/// lines, in order.
pub proof fn lemma_text_rows_shape(
    lines: Seq<(Seq<char>, usize)>,
    symbols: BoxSymbols,
    padding: Padding,
    width: usize,
    j: int,
)
    requires
        0 <= j < lines.len(),
    ensures
        block_rows(BlockView::Text(lines), symbols, padding, width).len() == lines.len(),
        block_rows(BlockView::Text(lines), symbols, padding, width)[j] == text_row(
            lines[j].0,
            lines[j].1,
            symbols.v,
            width,
        ),
{
}

/// Left alignment puts no blanks in front of a text. Without right
/// padding, right alignment puts a text that fits between the rules flush
/// against the closing rule, and centring leaves as many blanks in front
/// of it as behind it, or one fewer.
pub proof fn lemma_alignment_slack(width: usize, right: u8, len: nat)
    ensures
        leading_blanks(TextAlign::Left, width, right, len) == 0,
        len + 2 <= width ==> leading_blanks(TextAlign::Right, width, 0, len) + len + 2 == width,
        len + 2 <= width ==> ({
            let lead = leading_blanks(TextAlign::Center, width, 0, len);
            let trail = width - 2 - len - lead;
            lead <= trail <= lead + 1
        }),
{
}

/// With the same padding left and right, a right aligned text that fits
/// ends where the right padding begins: the rule, the left padding, the
/// leading blanks, the text, the right padding and the closing rule add up
/// to the width.
pub proof fn lemma_right_alignment_is_flush(width: usize, padding: Padding, len: nat)
    requires
        padding.left == padding.right,
        len + 2 + 2 * padding.right <= width,
    ensures
        1 + padding.left + leading_blanks(TextAlign::Right, width, padding.right, len) + len
            + padding.right + 1 == width,
{
}

/// A text that is longer than the whole width is not aligned: it gets no
/// leading blanks, whatever its alignment.
pub proof fn lemma_long_text_is_not_aligned(align: TextAlign, width: usize, right: u8, len: nat)
    requires
        len > width,
    ensures
        leading_blanks(align, width, right, len) == 0,
{
}

/// Where no subtraction runs out of columns, the blanks in front of a text
/// and the budget of the line wrapper are what plain arithmetic gives: the
/// offset of the alignment, less the right padding where there is an
/// offset, and the width less the right padding and the closing rule.
pub proof fn lemma_unsaturated_arithmetic(align: TextAlign, width: usize, right: u8, len: nat)
    requires
        len <= width,
        width >= 2 + right + len,
        align_offset(align, width, right, len) == 0 || align_offset(align, width, right, len)
            >= right,
    ensures
        wrap_budget(width, right) == width - (right + 1),
        align_offset(align, width, right, len) == match align {
            TextAlign::Left => 0,
            TextAlign::Right => width - 2 - right - len,
            TextAlign::Center => (width - 2 - len) / 2,
        },
        leading_blanks(align, width, right, len) == if align_offset(align, width, right, len)
            > 0 {
            align_offset(align, width, right, len) - right
        } else {
            0
        },
{
}

/// A wrapped line that begins with the indent begins with the vertical
/// rule.
pub proof fn lemma_indented_line_has_rule(line: Seq<char>, rule: char, left: u8)
    requires
        indent_prefix(rule, left).is_prefix_of(line),
    ensures
        has_rule(line, rule),
{
    assert(line[0] == indent_prefix(rule, left)[0]);
}

/// A line that stays within the budget of the line wrapper, at a width
/// that holds the right padding and the closing rule, is filled up to the
/// closing rule with at least as many blanks as the right padding asks
/// for: its columns, the fill and the one column of the rule add up to the
/// width.
pub proof fn lemma_text_row_within_budget(
    line: Seq<char>,
    columns: usize,
    rule: char,
    right: u8,
    width: usize,
)
    requires
        width >= right + 1,
        columns <= wrap_budget(width, right),
    ensures
        fill(columns, width) >= right,
        columns + fill(columns, width) + 1 == width,
        text_row(line, columns, rule, width).last() == rule,
        text_row(line, columns, rule, width).len() == line.len() + width - columns,
{
}

/// The first and the last row of a rendered banner are its borders, drawn
/// with the corner glyphs and the horizontal glyph of the banner. At a
/// width of two or more both are `width` characters long.
pub proof fn lemma_rendered_borders(
    banner: Banner,
    width: usize,
    decorations: Seq<Seq<Seq<char>>>,
)
    ensures
        banner.rows(width, decorations).len() >= 2,
        banner.rows(width, decorations).first() == border_row(
            banner.symbols.tl,
            banner.symbols.h,
            banner.symbols.tr,
            width,
        ),
        banner.rows(width, decorations).last() == border_row(
            banner.symbols.bl,
            banner.symbols.h,
            banner.symbols.br,
            width,
        ),
        width >= 2 ==> banner.rows(width, decorations).first().len() == width,
        width >= 2 ==> banner.rows(width, decorations).last().len() == width,
{
    lemma_banner_borders(
        banner.symbols,
        banner.padding,
        width,
        banner.blocks(width, decorations),
    );
}

/// Physical row `j` of the text at content line `i`: the wrapped line with
/// its payload styled, filled and closed with the vertical rule. The row
/// ends with the rule. It begins with the rule where the wrapped line does.
/// Where the styled line measures fewer columns than the width, these
/// columns, the fill and the one column of the closing rule add up to the
/// width.
pub proof fn lemma_rendered_text_row(
    banner: Banner,
    width: usize,
    decorations: Seq<Seq<Seq<char>>>,
    i: int,
    j: int,
)
    requires
        0 <= i < banner.lines.len(),
        banner.lines[i] is Text,
        0 <= j < physical_lines(
            banner.lines[i]->Text_0,
            banner.symbols.v,
            banner.padding,
            width,
        ).len(),
    ensures
        ({
            let rule = banner.symbols.v;
            let wrapped = physical_lines(banner.lines[i]->Text_0, rule, banner.padding, width);
            let styled = styled_line(wrapped[j], rule, decorations[i][j]);
            let columns = display_columns(styled);
            let row = block_rows(
                banner.blocks(width, decorations)[i],
                banner.symbols,
                banner.padding,
                width,
            )[j];
            &&& row == text_row(styled, columns, rule, width)
            &&& row.last() == rule
            &&& has_rule(wrapped[j], rule) ==> row.first() == rule
            &&& columns < width ==> columns + fill(columns, width) + 1 == width
        }),
{
    let rule = banner.symbols.v;
    let wrapped = physical_lines(banner.lines[i]->Text_0, rule, banner.padding, width);
    let styled = styled_line(wrapped[j], rule, decorations[i][j]);
    let lines = banner.blocks(width, decorations)[i]->Text_0;
    lemma_text_rows_shape(lines, banner.symbols, banner.padding, width, j);
    lemma_text_row_shape(styled, display_columns(styled), rule, width);
}

/// Whether `inner` stands in `outer` as one run of characters.
pub open spec fn encloses(outer: Seq<char>, inner: Seq<char>) -> bool {
    exists|before: Seq<char>, after: Seq<char>| outer == #[trigger] (before + inner + after)
}

/// Under decorations that the decorator may have returned, the row of a
/// wrapped line that begins with the rule and has no escape character
/// behind it is the rule, the decoration, the fill and the closing rule,
/// where the decoration is the payload alone or the payload between the
/// style sequence of the colour of the text and the reset sequence. So the
/// payload is still in its row, in one piece.
pub proof fn lemma_rendered_text_row_keeps_payload(
    banner: Banner,
    width: usize,
    decorations: Seq<Seq<Seq<char>>>,
    i: int,
    j: int,
)
    requires
        banner.decorated(width, decorations),
        0 <= i < banner.lines.len(),
        banner.lines[i] is Text,
        0 <= j < physical_lines(
            banner.lines[i]->Text_0,
            banner.symbols.v,
            banner.padding,
            width,
        ).len(),
        has_rule(
            physical_lines(banner.lines[i]->Text_0, banner.symbols.v, banner.padding, width)[j],
            banner.symbols.v,
        ),
        !physical_lines(banner.lines[i]->Text_0, banner.symbols.v, banner.padding, width)[j].skip(
            1,
        ).contains('\u{1b}'),
    ensures
        ({
            let rule = banner.symbols.v;
            let text = banner.lines[i]->Text_0;
            let payload = physical_lines(text, rule, banner.padding, width)[j].skip(1);
            let styled = seq![rule] + decorations[i][j];
            let row = block_rows(
                banner.blocks(width, decorations)[i],
                banner.symbols,
                banner.padding,
                width,
            )[j];
            &&& is_painted(decorations[i][j], payload, text.style.color)
            &&& row == styled + repeated(' ', fill(display_columns(styled), width)) + seq![rule]
            &&& encloses(row, payload)
        }),
{
    let rule = banner.symbols.v;
    let text = banner.lines[i]->Text_0;
    let wrapped = physical_lines(text, rule, banner.padding, width);
    let payload = wrapped[j].skip(1);
    let decoration = decorations[i][j];
    let styled = seq![rule] + decoration;
    let blanks = repeated(' ', fill(display_columns(styled), width));
    let row = styled + blanks + seq![rule];
    let tail = blanks + seq![rule];
    lemma_rendered_text_row(banner, width, decorations, i, j);
    assert(is_decoration(decoration, wrapped[j], rule, text.style.color));
    if decoration == payload {
        assert(row == seq![rule] + payload + tail);
    } else if decoration == payload + reset_sequence() {
        assert(row == seq![rule] + payload + (reset_sequence() + tail));
    } else {
        let digits = choose|digits: Seq<char>|
            is_code_of(digits, text.style.color) && decoration == #[trigger] style_sequence(
                digits,
            ) + payload + reset_sequence();
        assert(row == (seq![rule] + style_sequence(digits)) + payload + (reset_sequence()
            + tail));
    }
}

/// Where the decorator changed nothing, a physical row of a text is the
/// wrapped line itself, the blanks that fill its measured columns up to
/// the closing rule, and the closing rule.
pub proof fn lemma_undecorated_text_row(
    banner: Banner,
    width: usize,
    decorations: Seq<Seq<Seq<char>>>,
    i: int,
    j: int,
)
    requires
        0 <= i < banner.lines.len(),
        banner.lines[i] is Text,
        0 <= j < physical_lines(
            banner.lines[i]->Text_0,
            banner.symbols.v,
            banner.padding,
            width,
        ).len(),
        decorations[i][j] == physical_lines(
            banner.lines[i]->Text_0,
            banner.symbols.v,
            banner.padding,
            width,
        )[j].skip(1),
    ensures
        ({
            let rule = banner.symbols.v;
            let line = physical_lines(banner.lines[i]->Text_0, rule, banner.padding, width)[j];
            block_rows(
                banner.blocks(width, decorations)[i],
                banner.symbols,
                banner.padding,
                width,
            )[j] == line + repeated(' ', room(width as int, 1 + display_columns(line))) + seq![rule]
        }),
{
    let rule = banner.symbols.v;
    let line = physical_lines(banner.lines[i]->Text_0, rule, banner.padding, width)[j];
    lemma_rendered_text_row(banner, width, decorations, i, j);
    if has_rule(line, rule) {
        assert(seq![rule] + line.skip(1) == line);
    }
}

/// A text takes as many rows as the line wrapper made lines of it, in the
/// order of these lines; where it made none, the text takes one empty row.
pub proof fn lemma_rendered_text_rows(
    banner: Banner,
    width: usize,
    decorations: Seq<Seq<Seq<char>>>,
    i: int,
)
    requires
        0 <= i < banner.lines.len(),
        banner.lines[i] is Text,
    ensures
        ({
            let lines = physical_lines(
                banner.lines[i]->Text_0,
                banner.symbols.v,
                banner.padding,
                width,
            );
            let rows = block_rows(
                banner.blocks(width, decorations)[i],
                banner.symbols,
                banner.padding,
                width,
            );
            &&& lines.len() > 0 ==> rows.len() == lines.len()
            &&& lines.len() == 0 ==> rows == seq![Seq::<char>::empty()]
        }),
{
}

/// The divider at content line `i` takes exactly one row, which is drawn
/// with its glyph.
pub proof fn lemma_rendered_divider(
    banner: Banner,
    width: usize,
    decorations: Seq<Seq<Seq<char>>>,
    i: int,
)
    requires
        0 <= i < banner.lines.len(),
        banner.lines[i] is Divider,
    ensures
        block_rows(
            banner.blocks(width, decorations)[i],
            banner.symbols,
            banner.padding,
            width,
        ) == seq![
            divider_row(banner.symbols.v, banner.lines[i]->Divider_0, banner.padding, width),
        ],
{
}

/// Whether `row` is what a row between the borders is meant to be at
/// `width`: a row of `width` characters between two vertical rules, which
/// is what the paddings and the dividers are; or a physical row of one of
/// the texts, for which `lemma_rendered_text_row` says how it is framed and
/// filled; or the empty row that a text without physical lines leaves.
pub open spec fn is_framed_row(
    row: Seq<char>,
    banner: Banner,
    width: usize,
    decorations: Seq<Seq<Seq<char>>>,
) -> bool {
    ||| row.len() == width && row.first() == banner.symbols.v && row.last() == banner.symbols.v
    ||| exists|i: int, j: int|
        0 <= i < banner.lines.len() && banner.lines[i] is Text && 0 <= j < physical_lines(
            banner.lines[i]->Text_0,
            banner.symbols.v,
            banner.padding,
            width,
        ).len() && row == #[trigger] block_rows(
            banner.blocks(width, decorations)[i],
            banner.symbols,
            banner.padding,
            width,
        )[j]
    ||| row.len() == 0 && exists|i: int|
        0 <= i < banner.lines.len() && banner.lines[i] is Text && (#[trigger] physical_lines(
            banner.lines[i]->Text_0,
            banner.symbols.v,
            banner.padding,
            width,
        )).len() == 0
}

/// At a width that holds the two rules and both paddings, every row
/// between the borders of a rendered banner is framed: the rows of the
/// padding and the dividers are `width` characters long and stand between
/// two vertical rules, and every other row is a physical row of a text.
pub proof fn lemma_rendered_rows_are_framed(
    banner: Banner,
    width: usize,
    decorations: Seq<Seq<Seq<char>>>,
    k: int,
)
    requires
        width >= 2 + banner.padding.left + banner.padding.right,
        0 < k < banner.rows(width, decorations).len() - 1,
    ensures
        is_framed_row(banner.rows(width, decorations)[k], banner, width, decorations),
{
    let symbols = banner.symbols;
    let padding = banner.padding;
    let rule = symbols.v;
    let blocks = banner.blocks(width, decorations);
    let row = banner.rows(width, decorations)[k];
    lemma_banner_borders(symbols, padding, width, blocks);
    assert(row == interior_rows(symbols, padding, width, blocks)[k - 1]);
    lemma_interior_row_origin(symbols, padding, width, blocks, k - 1);
    if row == blank_row(rule, width) {
        lemma_border_row_shape(rule, ' ', rule, width);
    } else {
        let i = choose|i: int|
            0 <= i < blocks.len() && #[trigger] block_rows(
                blocks[i],
                symbols,
                padding,
                width,
            ).contains(row);
        let rows = block_rows(blocks[i], symbols, padding, width);
        let j = choose|j: int| 0 <= j < rows.len() && rows[j] == row;
        if let Line::Divider(glyph) = banner.lines[i] {
            lemma_divider_row_shape(rule, glyph, padding, width);
        }
    }
}

/// Whether two texts hold the same characters in the same style, one
/// borrowing them or not.
pub open spec fn same_text(one: Text, other: Text) -> bool {
    one.content@ == other.content@ && one.style == other.style
}

/// Whether two content lines are dividers of one glyph, or texts of the
/// same characters in the same style.
pub open spec fn same_line(one: Line, other: Line) -> bool {
    match (one, other) {
        (Line::Text(first), Line::Text(second)) => same_text(first, second),
        (Line::Divider(first), Line::Divider(second)) => first == second,
        _ => false,
    }
}

/// Whether a text borrows its characters or owns them makes no difference
/// to a rendering: two banners that differ in this alone render to the
/// same text under the same decorations, and the same decorations are
/// possible for both.
pub proof fn lemma_render_ignores_ownership(
    one: Banner,
    other: Banner,
    width: usize,
    decorations: Seq<Seq<Seq<char>>>,
)
    requires
        one.symbols == other.symbols,
        one.padding == other.padding,
        one.lines.len() == other.lines.len(),
        forall|i: int| 0 <= i < one.lines.len() ==> same_line(one.lines[i], other.lines[i]),
    ensures
        one.rendered(width, decorations) == other.rendered(width, decorations),
        one.decorated(width, decorations) == other.decorated(width, decorations),
{
    let rule = one.symbols.v;
    assert forall|i: int| 0 <= i < one.lines.len() && one.lines[i] is Text implies physical_lines(
        one.lines[i]->Text_0,
        rule,
        one.padding,
        width,
    ) == physical_lines(other.lines[i]->Text_0, rule, other.padding, width) by {
        assert(same_line(one.lines[i], other.lines[i]));
    }
    assert forall|i: int| 0 <= i < one.lines.len() implies one.blocks(width, decorations)[i]
        == other.blocks(width, decorations)[i] by {
        assert(same_line(one.lines[i], other.lines[i]));
    }
    assert(one.blocks(width, decorations) == other.blocks(width, decorations));
    assert forall|i: int| 0 <= i < one.lines.len() implies (one.lines[i] is Text
        <==> other.lines[i] is Text) by {
        assert(same_line(one.lines[i], other.lines[i]));
    }
}

/// A rendering is determined by the banner, by the width and by what the
/// decorator returned for the payloads that it was given: two renderings
/// of one banner that saw the same of both are the same text.
pub proof fn lemma_render_repeatable(
    banner: Banner,
    width: usize,
    first_decorations: Seq<Seq<Seq<char>>>,
    second_decorations: Seq<Seq<Seq<char>>>,
    first: Seq<char>,
    second: Seq<char>,
)
    requires
        banner.renders(width, first_decorations, first),
        banner.renders(width, second_decorations, second),
        banner.same_decorations(width, first_decorations, second_decorations),
    ensures
        first == second,
{
    let rule = banner.symbols.v;
    let one = banner.blocks(width, first_decorations);
    let other = banner.blocks(width, second_decorations);
    assert forall|i: int| 0 <= i < banner.lines.len() implies one[i] == other[i] by {
        if banner.lines[i] is Text {
            let wrapped = physical_lines(banner.lines[i]->Text_0, rule, banner.padding, width);
            assert forall|j: int| 0 <= j < wrapped.len() implies styled_line(
                wrapped[j],
                rule,
                first_decorations[i][j],
            ) == styled_line(wrapped[j], rule, second_decorations[i][j]) by {
                if has_rule(wrapped[j], rule) {
                    assert(first_decorations[i][j] == second_decorations[i][j]);
                }
            }
            assert(one[i]->Text_0 == other[i]->Text_0);
        }
    }
    assert(one == other);
}

} // verus!
