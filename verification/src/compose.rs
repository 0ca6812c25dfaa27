//! Drawing the rows, and putting a banner together from content lines that
//! are already wrapped, styled and measured.

use crate::frame::{BoxSymbols, Padding};
use crate::layout::{
    banner_text, blank_row, blank_rows, block_rows, body_rows, border_row, bottom_border,
    divider_row, leading_blanks, lemma_body_rows_step, lemma_stacked_concat, lemma_stacked_push,
    lemma_stacked_single, line_rows, repeated, stacked, text_row, text_rows, top_border,
    upper_rows, BlockView,
};
use crate::text::TextAlign;
use vstd::prelude::*;
use vstd::string::*;

verus! {

/// Appends `count` copies of `glyph` to `out`.
pub fn push_repeated(out: &mut String, glyph: char, count: usize)
    ensures
        final(out)@ == old(out)@ + repeated(glyph, count as nat),
{
    let mut done: usize = 0;
    while done < count
        invariant
            done <= count,
            out@ == old(out)@ + repeated(glyph, done as nat),
        decreases count - done,
    {
        out.push(glyph);
        done += 1;
    }
}

/// Appends the row that runs from `left` to `right` with `rule` in between.
pub fn push_border_row(out: &mut String, left: char, rule: char, right: char, width: usize)
    ensures
        final(out)@ == old(out)@ + border_row(left, rule, right, width),
{
    out.push(left);
    push_repeated(out, rule, width.saturating_sub(2));
    out.push(right);
}

/// Appends an interior row without content.
pub fn push_blank_row(out: &mut String, rule: char, width: usize)
    ensures
        final(out)@ == old(out)@ + blank_row(rule, width),
{
    push_border_row(out, rule, ' ', rule, width);
}

/// Appends a divider drawn with `glyph`.
pub fn push_divider_row(out: &mut String, rule: char, glyph: char, padding: &Padding, width: usize)
    ensures
        final(out)@ == old(out)@ + divider_row(rule, glyph, *padding, width),
{
    let left: usize = padding.left as usize;
    let right: usize = padding.right as usize;
    out.push(rule);
    push_repeated(out, ' ', left);
    push_repeated(out, glyph, width.saturating_sub(2).saturating_sub(left).saturating_sub(right));
    push_repeated(out, ' ', right);
    out.push(rule);
}

/// Appends a physical row of a text block: `line`, which measures
/// `columns` columns, the blanks that fill it up, and the closing rule.
pub fn push_text_row(out: &mut String, line: &str, columns: usize, rule: char, width: usize)
    ensures
        final(out)@ == old(out)@ + text_row(line@, columns, rule, width),
{
    out.append(line);
    push_repeated(out, ' ', width.saturating_sub(columns).saturating_sub(1));
    out.push(rule);
}

/// The number of blanks to put in front of a text of `len` bytes.
pub fn count_leading_blanks(align: TextAlign, width: usize, right: u8, len: usize) -> (count: usize)
    ensures
        count == leading_blanks(align, width, right, len as nat),
{
    if len > width {
        0
    } else {
        let inner: usize = width.saturating_sub(2);
        let offset: usize = match align {
            TextAlign::Left => 0,
            TextAlign::Right => inner.saturating_sub(right as usize).saturating_sub(len),
            TextAlign::Center => inner.saturating_sub(len) / 2,
        };
        offset.saturating_sub(right as usize)
    }
}

/// A physical line of a text block as it came back from wrapping and
/// styling, with the columns that were measured for it.
pub struct MeasuredLine {
    /// The line: indent, leading blanks and words, the payload styled.
    pub text: String,
    /// The display width measured for `text`.
    pub columns: usize,
}

impl View for MeasuredLine {
    type V = (Seq<char>, usize);

    open spec fn view(&self) -> (Seq<char>, usize) {
        (self.text@, self.columns)
    }
}

/// The views of `lines`, in order.
pub open spec fn line_views(lines: Seq<MeasuredLine>) -> Seq<(Seq<char>, usize)> {
    lines.map_values(|line: MeasuredLine| line@)
}

/// A content line that is ready to be drawn.
pub enum Block {
    /// A text block: its physical lines, top to bottom.
    Text(Vec<MeasuredLine>),
    /// A divider drawn with the given glyph.
    Divider(char),
}

impl View for Block {
    type V = BlockView;

    open spec fn view(&self) -> BlockView {
        match self {
            Block::Text(lines) => BlockView::Text(line_views(lines@)),
            Block::Divider(glyph) => BlockView::Divider(*glyph),
        }
    }
}

/// The views of `blocks`, in order.
pub open spec fn block_views(blocks: Seq<Block>) -> Seq<BlockView> {
    blocks.map_values(|block: Block| block@)
}

/// Appends the rows of a text block, each followed by a newline. A block
/// without lines leaves one empty row.
pub fn push_text_rows(out: &mut String, lines: &Vec<MeasuredLine>, rule: char, width: usize)
    ensures
        final(out)@ == old(out)@ + stacked(text_rows(line_views(lines@), rule, width)),
{
    let ghost views = line_views(lines@);
    if lines.len() == 0 {
        out.push('\n');
        proof {
            lemma_stacked_single(Seq::empty());
        }
        return;
    }
    let mut done: usize = 0;
    while done < lines.len()
        invariant
            done <= lines.len(),
            views == line_views(lines@),
            out@ == old(out)@ + stacked(line_rows(views.take(done as int), rule, width)),
        decreases lines.len() - done,
    {
        let line = &lines[done];
        push_text_row(out, line.text.as_str(), line.columns, rule, width);
        out.push('\n');
        proof {
            let before = line_rows(views.take(done as int), rule, width);
            let row = text_row(line.text@, line.columns, rule, width);
            lemma_stacked_push(before, row);
            assert(before.push(row) == line_rows(views.take(done + 1), rule, width));
        }
        done += 1;
    }
    assert(views.take(done as int) == views);
}

/// Appends `count` blank rows, each followed by a newline.
pub fn push_blank_rows(out: &mut String, count: u8, rule: char, width: usize)
    ensures
        final(out)@ == old(out)@ + stacked(blank_rows(count as nat, rule, width)),
{
    let mut done: u8 = 0;
    while done < count
        invariant
            done <= count,
            out@ == old(out)@ + stacked(blank_rows(done as nat, rule, width)),
        decreases count - done,
    {
        push_blank_row(out, rule, width);
        out.push('\n');
        proof {
            lemma_stacked_push(blank_rows(done as nat, rule, width), blank_row(rule, width));
            assert(blank_rows(done as nat, rule, width).push(blank_row(rule, width))
                == blank_rows((done + 1) as nat, rule, width));
        }
        done += 1;
    }
}

/// Draws the banner around content lines that are already wrapped, styled
/// and measured: the top border, the top padding, the rows of each block,
/// the bottom padding and the bottom border, joined by newlines.
pub fn compose(symbols: &BoxSymbols, padding: &Padding, width: usize, blocks: &Vec<Block>) -> (out:
    String)
    ensures
        out@ == banner_text(*symbols, *padding, width, block_views(blocks@)),
{
    let ghost views = block_views(blocks@);
    let ghost head = seq![top_border(*symbols, width)] + blank_rows(
        padding.top as nat,
        symbols.v,
        width,
    );
    let mut out = String::new();
    push_border_row(&mut out, symbols.tl, symbols.h, symbols.tr, width);
    out.push('\n');
    push_blank_rows(&mut out, padding.top, symbols.v, width);
    proof {
        lemma_stacked_single(top_border(*symbols, width));
        lemma_stacked_concat(
            seq![top_border(*symbols, width)],
            blank_rows(padding.top as nat, symbols.v, width),
        );
    }
    let mut done: usize = 0;
    while done < blocks.len()
        invariant
            done <= blocks.len(),
            views == block_views(blocks@),
            head == seq![top_border(*symbols, width)] + blank_rows(
                padding.top as nat,
                symbols.v,
                width,
            ),
            out@ == stacked(head + body_rows(views.take(done as int), *symbols, *padding, width)),
        decreases blocks.len() - done,
    {
        let ghost before = body_rows(views.take(done as int), *symbols, *padding, width);
        match &blocks[done] {
            Block::Text(lines) => {
                push_text_rows(&mut out, lines, symbols.v, width);
            },
            Block::Divider(glyph) => {
                push_divider_row(&mut out, symbols.v, *glyph, padding, width);
                out.push('\n');
                proof {
                    lemma_stacked_single(divider_row(symbols.v, *glyph, *padding, width));
                }
            },
        }
        proof {
            let rows = block_rows(views[done as int], *symbols, *padding, width);
            lemma_body_rows_step(views, done as int, *symbols, *padding, width);
            lemma_stacked_concat(head + before, rows);
            assert(head + (before + rows) == (head + before) + rows);
        }
        done += 1;
    }
    let ghost body = body_rows(views, *symbols, *padding, width);
    assert(views.take(done as int) == views);
    push_blank_rows(&mut out, padding.bottom, symbols.v, width);
    push_border_row(&mut out, symbols.bl, symbols.h, symbols.br, width);
    proof {
        let tail = blank_rows(padding.bottom as nat, symbols.v, width);
        lemma_stacked_concat(head + body, tail);
        let upper = upper_rows(*symbols, *padding, width, views);
        assert(upper.push(bottom_border(*symbols, width)).drop_last() == upper);
    }
    out
}

} // verus!
