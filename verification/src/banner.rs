//! The banner: its configuration, the content lines appended to it, and
//! its rendering.

use crate::compose::{
    block_views, compose, count_leading_blanks, line_views, push_repeated, Block, MeasuredLine,
};
use crate::color::{is_painted, Color};
use crate::frame::{BoxSymbols, Padding};
use crate::layout::{
    banner_rows, banner_text, indent_prefix, leading_blanks, repeated, wrap_budget, BlockView,
};
use crate::text::Text;
use crate::trusted::{
    display_columns, measure, paint, terminal_columns, wrap_lines, wrapped_lines,
};
use vstd::prelude::*;
use vstd::string::*;
use vstd::utf8::encode_utf8;

verus! {

/// A line of content inside the banner.
pub enum Line<'a> {
    /// A block of text, wrapped to the banner's width when rendered.
    Text(Text<'a>),
    /// A horizontal rule drawn with the given glyph.
    Divider(char),
}

/// Render a terminal banner.
pub struct Banner<'a> {
    /// The glyphs of the outline.
    pub symbols: BoxSymbols,
    /// The content, top to bottom.
    pub lines: Vec<Line<'a>>,
    /// The margins inside the outline.
    pub padding: Padding,
    /// The width to render at; the terminal is asked where there is none.
    pub width: Option<usize>,
}

/// The length of `content` in bytes, which is what alignment goes by.
pub open spec fn byte_len(content: Seq<char>) -> nat {
    encode_utf8(content).len()
}

/// The text with its leading blanks, as it is handed to the line wrapper.
pub open spec fn padded_content(text: Text, width: usize, right: u8) -> Seq<char> {
    repeated(' ', leading_blanks(text.style.align, width, right, byte_len(text.content@)))
        + text.content@
}

/// The physical lines that the line wrapper makes of a text.
pub open spec fn physical_lines(text: Text, rule: char, padding: Padding, width: usize) -> Seq<
    Seq<char>,
> {
    wrapped_lines(
        padded_content(text, width, padding.right),
        wrap_budget(width, padding.right),
        indent_prefix(rule, padding.left),
    )
}

/// Whether a wrapped line begins with the vertical rule.
pub open spec fn has_rule(line: Seq<char>, rule: char) -> bool {
    line.len() > 0 && line[0] == rule
}

/// A wrapped line after styling: the rule stays as it is and
/// `decoration`, which is what the decorator made of the rest, follows it.
/// A line that does not begin with the rule is left alone.
pub open spec fn styled_line(line: Seq<char>, rule: char, decoration: Seq<char>) -> Seq<char> {
    if has_rule(line, rule) {
        seq![rule] + decoration
    } else {
        line
    }
}

/// A text block: each physical line styled, with its measured columns.
pub open spec fn text_block(
    text: Text,
    decorations: Seq<Seq<char>>,
    rule: char,
    padding: Padding,
    width: usize,
) -> BlockView {
    let lines = physical_lines(text, rule, padding, width);
    BlockView::Text(
        Seq::new(
            lines.len(),
            |j: int|
                {
                    let styled = styled_line(lines[j], rule, decorations[j]);
                    (styled, display_columns(styled))
                },
        ),
    )
}

/// What a content line becomes, given what the decorator returned for each
/// of its physical lines.
pub open spec fn block_of(
    line: Line,
    decorations: Seq<Seq<char>>,
    rule: char,
    padding: Padding,
    width: usize,
) -> BlockView {
    match line {
        Line::Text(text) => text_block(text, decorations, rule, padding, width),
        Line::Divider(glyph) => BlockView::Divider(glyph),
    }
}

/// The payload of a wrapped line: what follows the vertical rule at its
/// start, if it starts with one.
pub fn payload_after_rule<'b>(line: &'b str, rule: char) -> (payload: Option<&'b str>)
    ensures
        has_rule(line@, rule) ==> payload.is_some() && payload.unwrap()@ == line@.skip(1),
        !has_rule(line@, rule) ==> payload.is_none(),
{
    let len: usize = line.unicode_len();
    if len > 0 && line.get_char(0) == rule {
        Some(line.substring_char(1, len))
    } else {
        None
    }
}

/// Whether `decoration` may be what the decorator made of the payload of
/// `line` for `color`: a payload without an escape character comes back
/// alone, or between the style sequence of the colour and the reset
/// sequence. Nothing is asked where the line has no rule in front, and so
/// no payload.
pub open spec fn is_decoration(
    decoration: Seq<char>,
    line: Seq<char>,
    rule: char,
    color: Color,
) -> bool {
    has_rule(line, rule) && !line.skip(1).contains('\u{1b}') ==> is_painted(
        decoration,
        line.skip(1),
        color,
    )
}

/// Styles and measures one wrapped line. The decorator sees the payload
/// only; the vertical rule in front stays unstyled. What the decorator
/// returned comes back as the ghost value.
fn style_line(line: &str, color: Color, rule: char) -> (styled: (MeasuredLine, Ghost<Seq<char>>))
    ensures
        styled.0@ == (
            styled_line(line@, rule, styled.1@),
            display_columns(styled_line(line@, rule, styled.1@)),
        ),
        is_decoration(styled.1@, line@, rule, color),
{
    let mut text = String::new();
    let ghost mut decoration = Seq::<char>::empty();
    match payload_after_rule(line, rule) {
        Some(payload) => {
            let painted = paint(payload, color);
            text.push(rule);
            text.append(painted.as_str());
            proof {
                decoration = painted@;
            }
        },
        None => {
            text.append(line);
        },
    }
    let columns: usize = measure(text.as_str());
    (MeasuredLine { text, columns }, Ghost(decoration))
}

/// Wraps a text to the width, then styles and measures each physical line.
fn prepare_text(text: &Text, indent: &str, rule: char, padding: &Padding, width: usize) -> (prepared:
    (Vec<MeasuredLine>, Ghost<Seq<Seq<char>>>))
    requires
        indent@ == indent_prefix(rule, padding.left),
    ensures
        BlockView::Text(line_views(prepared.0@)) == text_block(
            *text,
            prepared.1@,
            rule,
            *padding,
            width,
        ),
        forall|j: int|
            0 <= j < physical_lines(*text, rule, *padding, width).len() ==> is_decoration(
                #[trigger] prepared.1@[j],
                physical_lines(*text, rule, *padding, width)[j],
                rule,
                text.style.color,
            ),
{
    let content = text.as_str();
    let len: usize = content.as_bytes().len();
    let blanks: usize = count_leading_blanks(text.style.align, width, padding.right, len);
    let mut padded = String::new();
    push_repeated(&mut padded, ' ', blanks);
    padded.append(content);
    let budget: usize = width.saturating_sub(padding.right as usize + 1);
    let lines = wrap_lines(padded.as_str(), budget, indent);
    let ghost wrapped = physical_lines(*text, rule, *padding, width);
    let mut rows: Vec<MeasuredLine> = Vec::new();
    let ghost mut decorations = Seq::<Seq<char>>::empty();
    let mut done: usize = 0;
    while done < lines.len()
        invariant
            done <= lines.len(),
            lines.deep_view() == wrapped,
            rows.len() == done,
            decorations.len() == done,
            forall|j: int|
                0 <= j < done ==> (#[trigger] rows[j])@ == (
                    styled_line(wrapped[j], rule, decorations[j]),
                    display_columns(styled_line(wrapped[j], rule, decorations[j])),
                ),
            forall|j: int|
                0 <= j < done ==> is_decoration(
                    #[trigger] decorations[j],
                    wrapped[j],
                    rule,
                    text.style.color,
                ),
        decreases lines.len() - done,
    {
        let styled = style_line(lines[done].as_str(), text.style.color, rule);
        rows.push(styled.0);
        proof {
            decorations = decorations.push(styled.1@);
        }
        done += 1;
    }
    proof {
        let block = text_block(*text, decorations, rule, *padding, width);
        assert(line_views(rows@) == block->Text_0);
    }
    (rows, Ghost(decorations))
}

impl<'a> Default for Banner<'a> {
    /// A banner with the light line set, no padding, no content and no
    /// explicit width.
    fn default() -> (banner: Self)
        ensures
            banner.symbols == BoxSymbols::light(),
            banner.lines@ == Seq::<Line<'a>>::empty(),
            banner.padding == (Padding { top: 0, right: 0, bottom: 0, left: 0 }),
            banner.width == None::<usize>,
    {
        Banner {
            symbols: BoxSymbols::default(),
            lines: Vec::new(),
            padding: Padding::default(),
            width: None,
        }
    }
}

impl<'a> Banner<'a> {
    /// Create a new banner.
    pub fn new() -> (banner: Self)
        ensures
            banner.symbols == BoxSymbols::light(),
            banner.lines@ == Seq::<Line<'a>>::empty(),
            banner.padding == (Padding { top: 0, right: 0, bottom: 0, left: 0 }),
            banner.width == None::<usize>,
    {
        Banner::default()
    }

    /// Set an explicit width for the banner.
    pub fn width(self, width: usize) -> (banner: Self)
        ensures
            banner == (Banner { width: Some(width), ..self }),
    {
        let mut banner = self;
        banner.width = Some(width);
        banner
    }

    /// Set the banner padding.
    pub fn padding(self, padding: Padding) -> (banner: Self)
        ensures
            banner == (Banner { padding, ..self }),
    {
        let mut banner = self;
        banner.padding = padding;
        banner
    }

    /// Set the banner box symbols.
    pub fn symbols(self, symbols: BoxSymbols) -> (banner: Self)
        ensures
            banner == (Banner { symbols, ..self }),
    {
        let mut banner = self;
        banner.symbols = symbols;
        banner
    }

    /// Whether this banner is `before` with `line` appended to its content
    /// and nothing else changed.
    pub open spec fn extends(self, before: Self, line: Line<'a>) -> bool {
        &&& self.lines@ == before.lines@.push(line)
        &&& self.symbols == before.symbols
        &&& self.padding == before.padding
        &&& self.width == before.width
    }

    /// Append a block of text to wrap inside the banner.
    pub fn text(self, text: Text<'a>) -> (banner: Self)
        ensures
            banner.extends(self, Line::Text(text)),
    {
        let mut banner = self;
        banner.lines.push(Line::Text(text));
        banner
    }

    /// Append a divider drawn with the given character.
    pub fn divider_with(self, character: char) -> (banner: Self)
        ensures
            banner.extends(self, Line::Divider(character)),
    {
        let mut banner = self;
        banner.lines.push(Line::Divider(character));
        banner
    }

    /// Append a divider rule, drawn with the horizontal glyph that the
    /// banner holds at this moment.
    pub fn divider(self) -> (banner: Self)
        ensures
            banner.extends(self, Line::Divider(self.symbols.h)),
    {
        let glyph = self.symbols.h;
        self.divider_with(glyph)
    }

    /// Append a divider drawn with blanks.
    pub fn divider_with_space(self) -> (banner: Self)
        ensures
            banner.extends(self, Line::Divider(' ')),
    {
        self.divider_with(' ')
    }

    /// Append a newline rule: a row of blanks.
    pub fn newline(self) -> (banner: Self)
        ensures
            banner.extends(self, Line::Divider(' ')),
    {
        self.divider_with_space()
    }

    /// What the content lines become at `width`, where `decorations[i][j]`
    /// is what the decorator returned for physical line `j` of content
    /// line `i`.
    pub open spec fn blocks(self, width: usize, decorations: Seq<Seq<Seq<char>>>) -> Seq<
        BlockView,
    > {
        Seq::new(
            self.lines.len() as nat,
            |i: int| block_of(self.lines[i], decorations[i], self.symbols.v, self.padding, width),
        )
    }

    /// The text of the banner at `width`, given what the decorator
    /// returned.
    pub open spec fn rendered(self, width: usize, decorations: Seq<Seq<Seq<char>>>) -> Seq<char> {
        banner_text(self.symbols, self.padding, width, self.blocks(width, decorations))
    }

    /// The rows of the banner at `width`, from the top border to the bottom
    /// border.
    pub open spec fn rows(self, width: usize, decorations: Seq<Seq<Seq<char>>>) -> Seq<Seq<char>> {
        banner_rows(self.symbols, self.padding, width, self.blocks(width, decorations))
    }

    /// Whether `decorations` may be what the decorator returned while the
    /// banner was rendered at `width`: each payload without an escape
    /// character came back alone, or between the style sequence of the
    /// colour of its text and the reset sequence.
    pub open spec fn decorated(self, width: usize, decorations: Seq<Seq<Seq<char>>>) -> bool {
        forall|i: int, j: int|
            0 <= i < self.lines.len() && self.lines[i] is Text && 0 <= j < physical_lines(
                self.lines[i]->Text_0,
                self.symbols.v,
                self.padding,
                width,
            ).len() ==> is_decoration(
                #[trigger] decorations[i][j],
                physical_lines(self.lines[i]->Text_0, self.symbols.v, self.padding, width)[j],
                self.symbols.v,
                self.lines[i]->Text_0.style.color,
            )
    }

    /// Whether two records of what the decorator returned agree wherever
    /// the banner uses them at `width`: on every physical line of a text
    /// that begins with the vertical rule.
    pub open spec fn same_decorations(
        self,
        width: usize,
        first: Seq<Seq<Seq<char>>>,
        second: Seq<Seq<Seq<char>>>,
    ) -> bool {
        forall|i: int, j: int|
            0 <= i < self.lines.len() && self.lines[i] is Text && 0 <= j < physical_lines(
                self.lines[i]->Text_0,
                self.symbols.v,
                self.padding,
                width,
            ).len() && has_rule(
                physical_lines(self.lines[i]->Text_0, self.symbols.v, self.padding, width)[j],
                self.symbols.v,
            ) ==> #[trigger] first[i][j] == second[i][j]
    }

    /// Whether `out` is a rendering of this banner at `width` under
    /// `decorations`, and `width` is one that the banner may be rendered
    /// at: the explicit width where one is set, else any that a terminal
    /// can report.
    pub open spec fn renders(
        self,
        width: usize,
        decorations: Seq<Seq<Seq<char>>>,
        out: Seq<char>,
    ) -> bool {
        &&& self.width matches Some(explicit) ==> width == explicit
        &&& self.width is None ==> width <= u16::MAX
        &&& self.decorated(width, decorations)
        &&& out == self.rendered(width, decorations)
    }

    /// Wraps, styles and measures every content line for `width`.
    fn prepare(&self, width: usize) -> (prepared: (Vec<Block>, Ghost<Seq<Seq<Seq<char>>>>))
        ensures
            block_views(prepared.0@) == self.blocks(width, prepared.1@),
            self.decorated(width, prepared.1@),
    {
        let mut indent = String::new();
        indent.push(self.symbols.v);
        push_repeated(&mut indent, ' ', self.padding.left as usize);
        let mut blocks: Vec<Block> = Vec::new();
        let ghost mut decorations = Seq::<Seq<Seq<char>>>::empty();
        let mut done: usize = 0;
        while done < self.lines.len()
            invariant
                done <= self.lines.len(),
                indent@ == indent_prefix(self.symbols.v, self.padding.left),
                blocks.len() == done,
                decorations.len() == done,
                forall|i: int|
                    0 <= i < done ==> (#[trigger] blocks[i])@ == block_of(
                        self.lines[i],
                        decorations[i],
                        self.symbols.v,
                        self.padding,
                        width,
                    ),
                forall|i: int, j: int|
                    0 <= i < done && self.lines[i] is Text && 0 <= j < physical_lines(
                        self.lines[i]->Text_0,
                        self.symbols.v,
                        self.padding,
                        width,
                    ).len() ==> is_decoration(
                        #[trigger] decorations[i][j],
                        physical_lines(
                            self.lines[i]->Text_0,
                            self.symbols.v,
                            self.padding,
                            width,
                        )[j],
                        self.symbols.v,
                        self.lines[i]->Text_0.style.color,
                    ),
            decreases self.lines.len() - done,
        {
            match &self.lines[done] {
                Line::Text(text) => {
                    let prepared = prepare_text(
                        text,
                        indent.as_str(),
                        self.symbols.v,
                        &self.padding,
                        width,
                    );
                    blocks.push(Block::Text(prepared.0));
                    proof {
                        decorations = decorations.push(prepared.1@);
                    }
                },
                Line::Divider(glyph) => {
                    blocks.push(Block::Divider(*glyph));
                    proof {
                        decorations = decorations.push(Seq::empty());
                    }
                },
            }
            done += 1;
        }
        (blocks, Ghost(decorations))
    }

    /// Render the banner at the given width, whatever width the banner
    /// itself holds.
    pub fn render_at(&self, width: usize) -> (out: String)
        ensures
            exists|decorations: Seq<Seq<Seq<char>>>|
                self.decorated(width, decorations) && out@ == #[trigger] self.rendered(
                    width,
                    decorations,
                ),
    {
        let prepared = self.prepare(width);
        let out = compose(&self.symbols, &self.padding, width, &prepared.0);
        assert(self.decorated(width, prepared.1@) && out@ == self.rendered(width, prepared.1@));
        out
    }

    /// Render the banner: at its explicit width where it has one, else at
    /// the width of the terminal.
    pub fn render(&self) -> (out: String)
        ensures
            exists|width: usize, decorations: Seq<Seq<Seq<char>>>| #[trigger]
                self.renders(width, decorations, out@),
    {
        let width: usize = match self.width {
            Some(explicit) => explicit,
            None => terminal_columns(),
        };
        let out = self.render_at(width);
        proof {
            let decorations = choose|decorations: Seq<Seq<Seq<char>>>|
                self.decorated(width, decorations) && out@ == #[trigger] self.rendered(
                    width,
                    decorations,
                );
            assert(self.renders(width, decorations, out@));
        }
        out
    }
}

} // verus!
