//! A block of text and how it is styled.

use crate::color::Color;
use std::borrow::Cow;
use vstd::prelude::*;

verus! {

/// Variants for text alignment.
#[derive(Copy, Clone)]
pub enum TextAlign {
    /// Text align left
    Left,
    /// Text align right
    Right,
    /// Text align center
    Center,
}

impl Default for TextAlign {
    /// Text is aligned left unless told otherwise.
    fn default() -> (align: Self)
        ensures
            align == TextAlign::Left,
    {
        TextAlign::Left
    }
}

/// Text style.
pub struct TextStyle {
    /// Alignment.
    pub align: TextAlign,
    /// Color information.
    pub color: Color,
}

impl TextStyle {
    /// The style of a text that was given none: left aligned, in bright
    /// white.
    pub open spec fn initial() -> TextStyle {
        TextStyle { align: TextAlign::Left, color: Color::BrightWhite }
    }
}

impl Default for TextStyle {
    /// Left aligned, in bright white.
    fn default() -> (style: Self)
        ensures
            style == TextStyle::initial(),
    {
        Self { align: TextAlign::Left, color: Color::BrightWhite }
    }
}

/// Text content.
pub struct Text<'a> {
    /// Content for the text.
    pub content: Cow<'a, str>,
    /// Styling information.
    pub style: TextStyle,
}

impl Clone for TextStyle {
    /// The copy is the same style.
    fn clone(&self) -> (style: Self)
        ensures
            style == *self,
    {
        Self { align: self.align, color: self.color }
    }
}

impl<'a> Clone for Text<'a> {
    /// The copy is the same text: content that was borrowed stays
    /// borrowed, content that was owned is copied.
    fn clone(&self) -> (text: Self)
        ensures
            text == *self,
    {
        let content = match &self.content {
            Cow::Borrowed(borrowed) => Cow::Borrowed(*borrowed),
            Cow::Owned(owned) => Cow::Owned(owned.clone()),
        };
        Self { content, style: self.style.clone() }
    }
}

impl<'a> Text<'a> {
    /// Set the text alignment.
    pub fn align(self, align: TextAlign) -> (text: Self)
        ensures
            text.content == self.content,
            text.style.color == self.style.color,
            text.style.align == align,
    {
        let mut text = self;
        text.style.align = align;
        text
    }

    /// Set the text color.
    pub fn color(self, color: Color) -> (text: Self)
        ensures
            text.content == self.content,
            text.style.align == self.style.align,
            text.style.color == color,
    {
        let mut text = self;
        text.style.color = color;
        text
    }

    /// The content as a string slice.
    pub fn as_str(&self) -> (content: &str)
        ensures
            content@ == self.content@,
    {
        match &self.content {
            Cow::Borrowed(borrowed) => borrowed,
            Cow::Owned(owned) => owned.as_str(),
        }
    }
}

impl<'a> Default for Text<'a> {
    /// No characters, in the default style.
    fn default() -> (text: Self)
        ensures
            text == (Text { content: Cow::Borrowed(""), style: TextStyle::initial() }),
            text.content@ == Seq::<char>::empty(),
    {
        proof {
            reveal_strlit("");
        }
        Text { content: Cow::Borrowed(""), style: TextStyle::default() }
    }
}

impl<'a> From<&'a str> for Text<'a> {
    /// A text that borrows `value`, in the default style.
    fn from(value: &'a str) -> (text: Self) {
        Text { content: Cow::Borrowed(value), style: TextStyle::default() }
    }
}

impl<'a> vstd::std_specs::convert::FromSpecImpl<&'a str> for Text<'a> {
    open spec fn obeys_from_spec() -> bool {
        true
    }

    open spec fn from_spec(value: &'a str) -> Self {
        Text { content: Cow::Borrowed(value), style: TextStyle::initial() }
    }
}

impl From<String> for Text<'_> {
    /// A text that owns `value`, in the default style.
    fn from(value: String) -> (text: Self) {
        Text { content: Cow::Owned(value), style: TextStyle::default() }
    }
}

impl vstd::std_specs::convert::FromSpecImpl<String> for Text<'_> {
    open spec fn obeys_from_spec() -> bool {
        true
    }

    open spec fn from_spec(value: String) -> Self {
        Text { content: Cow::Owned(value), style: TextStyle::initial() }
    }
}

impl<'a> From<Cow<'a, str>> for Text<'a> {
    /// A text with `value` as its content, in the default style.
    fn from(value: Cow<'a, str>) -> (text: Self) {
        Text { content: value, style: TextStyle::default() }
    }
}

impl<'a> vstd::std_specs::convert::FromSpecImpl<Cow<'a, str>> for Text<'a> {
    open spec fn obeys_from_spec() -> bool {
        true
    }

    open spec fn from_spec(value: Cow<'a, str>) -> Self {
        Text { content: value, style: TextStyle::initial() }
    }
}

impl<'a> From<&'a String> for Text<'a> {
    /// A text that borrows the characters of `value`, in the default style.
    fn from(value: &'a String) -> (text: Self)
        ensures
            text.content is Borrowed,
            text.content@ == value@,
            text.style == TextStyle::initial(),
    {
        Text { content: Cow::Borrowed(value.as_str()), style: TextStyle::default() }
    }
}

// No specification function turns a string into the slice that borrows
// it, so this conversion states its result in its own contract, by the
// characters of the content.
impl<'a> vstd::std_specs::convert::FromSpecImpl<&'a String> for Text<'a> {
    open spec fn obeys_from_spec() -> bool {
        false
    }

    open spec fn from_spec(value: &'a String) -> Self {
        arbitrary()
    }
}

} // verus!
