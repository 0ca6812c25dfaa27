use std::borrow::Cow;
use terminal_banner::Color;
use terminal_banner::{Banner, BoxSymbols, Line, Padding, Text, TextAlign, TextStyle};

fn is_left(align: TextAlign) -> bool {
    matches!(align, TextAlign::Left)
}

#[test]
fn light_symbols_are_the_default() {
    let symbols = BoxSymbols::default();
    assert_eq!(
        ['┌', '┐', '└', '┘', '─', '│'],
        [symbols.tl, symbols.tr, symbols.bl, symbols.br, symbols.h, symbols.v]
    );
}

#[test]
fn strong_symbols() {
    let symbols = BoxSymbols::strong();
    assert_eq!(
        ['┏', '┓', '┗', '┛', '━', '┃'],
        [symbols.tl, symbols.tr, symbols.bl, symbols.br, symbols.h, symbols.v]
    );
}

#[test]
fn padding_of_one_and_of_none() {
    let one = Padding::one();
    assert_eq!([1, 1, 1, 1], [one.top, one.right, one.bottom, one.left]);
    let none = Padding::default();
    assert_eq!([0, 0, 0, 0], [none.top, none.right, none.bottom, none.left]);
}

#[test]
fn default_style_is_left_aligned_and_bright_white() {
    let style = TextStyle::default();
    assert!(is_left(style.align));
    assert_eq!(Color::BrightWhite, style.color);
    assert!(is_left(TextAlign::default()));
}

#[test]
fn default_text_is_empty() {
    let text = Text::default();
    assert_eq!("", text.content);
    assert_eq!("", text.as_str());
    assert!(is_left(text.style.align));
    assert_eq!(Color::BrightWhite, text.style.color);
}

#[test]
fn text_from_a_string_slice_borrows() {
    let text = Text::from("borrowed");
    assert!(matches!(text.content, Cow::Borrowed("borrowed")));
    assert_eq!("borrowed", text.as_str());
    assert!(is_left(text.style.align));
    assert_eq!(Color::BrightWhite, text.style.color);
}

#[test]
fn text_from_a_string_owns() {
    let text = Text::from(String::from("owned"));
    assert!(matches!(text.content, Cow::Owned(_)));
    assert_eq!("owned", text.as_str());
    assert!(is_left(text.style.align));
    assert_eq!(Color::BrightWhite, text.style.color);
}

#[test]
fn text_from_a_string_reference_borrows() {
    let value = String::from("by reference");
    let text = Text::from(&value);
    assert!(matches!(text.content, Cow::Borrowed("by reference")));
    assert_eq!(Color::BrightWhite, text.style.color);
}

#[test]
fn text_from_a_cow_keeps_it() {
    let text = Text::from(Cow::Borrowed("cow"));
    assert!(matches!(text.content, Cow::Borrowed("cow")));
    let text = Text::from(Cow::<str>::Owned(String::from("cow")));
    assert!(matches!(text.content, Cow::Owned(_)));
    assert_eq!("cow", text.as_str());
}

#[test]
fn align_and_color_change_the_style_only() {
    let text = Text::from("styled").align(TextAlign::Center);
    assert!(matches!(text.style.align, TextAlign::Center));
    assert_eq!(Color::BrightWhite, text.style.color);
    assert_eq!("styled", text.content);
    let text = text.color(Color::Blue);
    assert!(matches!(text.style.align, TextAlign::Center));
    assert_eq!(Color::Blue, text.style.color);
    assert_eq!("styled", text.content);
    let text = text.align(TextAlign::Right);
    assert!(matches!(text.style.align, TextAlign::Right));
    assert_eq!(Color::Blue, text.style.color);
}

#[test]
fn cloned_text_is_the_same() {
    let value = String::from("twice");
    let text = Text::from(&value).align(TextAlign::Right).color(Color::TrueColor { r: 1, g: 2, b: 3 });
    let copy = text.clone();
    assert!(matches!(copy.content, Cow::Borrowed("twice")));
    assert!(matches!(copy.style.align, TextAlign::Right));
    assert_eq!(Color::TrueColor { r: 1, g: 2, b: 3 }, copy.style.color);
    let owned = Text::from(String::from("owned")).clone();
    assert!(matches!(owned.content, Cow::Owned(_)));
    assert_eq!("owned", owned.content);
    let style = text.style.clone();
    assert!(matches!(style.align, TextAlign::Right));
    assert_eq!(text.style.color, style.color);
}

#[test]
fn new_banner_is_empty() {
    let banner = Banner::new();
    assert_eq!('┌', banner.symbols.tl);
    assert_eq!('│', banner.symbols.v);
    assert_eq!(0, banner.lines.len());
    assert_eq!(0, banner.padding.top + banner.padding.right);
    assert_eq!(0, banner.padding.bottom + banner.padding.left);
    assert_eq!(None, banner.width);
    let banner = Banner::default();
    assert_eq!(0, banner.lines.len());
    assert_eq!(None, banner.width);
}

#[test]
fn builders_set_one_thing_each() {
    let banner = Banner::new().width(12);
    assert_eq!(Some(12), banner.width);
    let banner = banner.padding(Padding { top: 1, right: 2, bottom: 3, left: 4 });
    assert_eq!([1, 2, 3, 4], [
        banner.padding.top,
        banner.padding.right,
        banner.padding.bottom,
        banner.padding.left
    ]);
    assert_eq!(Some(12), banner.width);
    let banner = banner.symbols(BoxSymbols::strong());
    assert_eq!('┃', banner.symbols.v);
    assert_eq!(2, banner.padding.right);
    assert_eq!(0, banner.lines.len());
    let banner = banner.width(7);
    assert_eq!(Some(7), banner.width);
    assert_eq!('┃', banner.symbols.v);
}

#[test]
fn content_is_appended_in_order() {
    let banner = Banner::new()
        .text("first".into())
        .divider()
        .divider_with('=')
        .symbols(BoxSymbols::strong())
        .divider()
        .divider_with_space()
        .newline()
        .text(Text::from("last").align(TextAlign::Right));
    assert_eq!(7, banner.lines.len());
    assert!(matches!(&banner.lines[0], Line::Text(text) if text.content == "first"));
    assert!(matches!(banner.lines[1], Line::Divider('─')));
    assert!(matches!(banner.lines[2], Line::Divider('=')));
    assert!(matches!(banner.lines[3], Line::Divider('━')));
    assert!(matches!(banner.lines[4], Line::Divider(' ')));
    assert!(matches!(banner.lines[5], Line::Divider(' ')));
    assert!(
        matches!(&banner.lines[6], Line::Text(text) if text.content == "last" && matches!(text.style.align, TextAlign::Right))
    );
    assert_eq!(None, banner.width);
}

#[test]
fn borrowed_and_owned_text_have_the_same_style() {
    let borrowed = Text::from("same");
    let owned = Text::from(String::from("same"));
    assert_eq!(borrowed.content, owned.content);
    assert_eq!(borrowed.style.color, owned.style.color);
    assert!(is_left(borrowed.style.align) && is_left(owned.style.align));
    let one = Banner::new().width(12).padding(Padding::one()).text(borrowed).render();
    let other = Banner::new().width(12).padding(Padding::one()).text(owned).render();
    assert_eq!(one, other);
}

#[test]
fn colors_are_values() {
    assert_eq!(Color::Red, Color::Red);
    assert_ne!(Color::Red, Color::BrightRed);
    assert_eq!(Color::TrueColor { r: 1, g: 2, b: 3 }, Color::TrueColor { r: 1, g: 2, b: 3 });
    assert_ne!(Color::TrueColor { r: 1, g: 2, b: 3 }, Color::TrueColor { r: 1, g: 2, b: 4 });
    let copy = Color::Cyan;
    assert_eq!(copy, copy.clone());
    assert_eq!("BrightWhite", format!("{:?}", Color::BrightWhite));
}
