use terminal_banner::colored::control::set_override;
use terminal_banner::{Banner, BoxSymbols, Padding, Text, TextAlign};

const PARAGRAPH: &str = "Lorem ipsum dolor sit amet, consectetur adipiscing elit, sed do eiusmod tempor incididunt ut labore et dolore magna aliqua. Ut enim ad minim veniam, quis nostrud exercitation ullamco laboris nisi ut aliquip ex ea commodo consequat. Duis aute irure dolor in reprehenderit in voluptate velit esse cillum dolore eu fugiat nulla pariatur. Excepteur sint occaecat cupidatat non proident, sunt in culpa qui officia deserunt mollit anim id est laborum.";

fn expected_default() -> String {
    [
        "┌────────────────────────────────────────────────────────────────────────────────┐",
        "│                                                                                │",
        "│ DEFAULT                                                                        │",
        "│                                                                                │",
        "│ LEFT                                                                           │",
        "│                                     CENTER                                     │",
        "│                                                                          RIGHT │",
        "│                                                                                │",
        "│ ────────────────────────────────────────────────────────────────────────────── │",
        "│                                                                                │",
        "│ Lorem ipsum dolor sit amet, consectetur adipiscing elit, sed do eiusmod tempor │",
        "│ incididunt ut labore et dolore magna aliqua. Ut enim ad minim veniam, quis     │",
        "│ nostrud exercitation ullamco laboris nisi ut aliquip ex ea commodo consequat.  │",
        "│ Duis aute irure dolor in reprehenderit in voluptate velit esse cillum dolore   │",
        "│ eu fugiat nulla pariatur. Excepteur sint occaecat cupidatat non proident, sunt │",
        "│ in culpa qui officia deserunt mollit anim id est laborum.                      │",
        "│                                                                                │",
        "└────────────────────────────────────────────────────────────────────────────────┘",
    ]
    .join("\n")
}

fn expected_strong() -> String {
    [
        "┏━━━━━━━━━━━━━━━━━━━━━━━━━━━━━━━━━━━━━━━━━━━━━━━━━━━━━━━━━━━━━━━━━━━━━━━━━━━━━━━━┓",
        "┃                                                                                ┃",
        "┃ DEFAULT                                                                        ┃",
        "┃                                                                                ┃",
        "┃ LEFT                                                                           ┃",
        "┃                                     CENTER                                     ┃",
        "┃                                                                          RIGHT ┃",
        "┃                                                                                ┃",
        "┃ ━━━━━━━━━━━━━━━━━━━━━━━━━━━━━━━━━━━━━━━━━━━━━━━━━━━━━━━━━━━━━━━━━━━━━━━━━━━━━━ ┃",
        "┃                                                                                ┃",
        "┃ Lorem ipsum dolor sit amet, consectetur adipiscing elit, sed do eiusmod tempor ┃",
        "┃ incididunt ut labore et dolore magna aliqua. Ut enim ad minim veniam, quis     ┃",
        "┃ nostrud exercitation ullamco laboris nisi ut aliquip ex ea commodo consequat.  ┃",
        "┃ Duis aute irure dolor in reprehenderit in voluptate velit esse cillum dolore   ┃",
        "┃ eu fugiat nulla pariatur. Excepteur sint occaecat cupidatat non proident, sunt ┃",
        "┃ in culpa qui officia deserunt mollit anim id est laborum.                      ┃",
        "┃                                                                                ┃",
        "┗━━━━━━━━━━━━━━━━━━━━━━━━━━━━━━━━━━━━━━━━━━━━━━━━━━━━━━━━━━━━━━━━━━━━━━━━━━━━━━━━┛",
    ]
    .join("\n")
}

#[test]
fn default() {
    set_override(false);
    let expected = expected_default();
    let result = Banner::new()
        .width(82)
        .symbols(BoxSymbols::default())
        .padding(Padding::one())
        .text(Text::from("DEFAULT"))
        .newline()
        .text(Text::from("LEFT").align(TextAlign::Left))
        .text(Text::from("CENTER").align(TextAlign::Center))
        .text(Text::from("RIGHT").align(TextAlign::Right))
        .newline()
        .divider()
        .newline()
        .text(Text::from(PARAGRAPH))
        .render();
    assert_eq!(expected, result);
}

#[test]
fn strong() {
    set_override(false);
    let expected = expected_strong();
    let result = Banner::new()
        .width(82)
        .symbols(BoxSymbols::strong())
        .padding(Padding::one())
        .text(Text::from("DEFAULT"))
        .newline()
        .text(Text::from("LEFT").align(TextAlign::Left))
        .text(Text::from("CENTER").align(TextAlign::Center))
        .text(Text::from("RIGHT").align(TextAlign::Right))
        .newline()
        .divider()
        .newline()
        .text(Text::from(PARAGRAPH))
        .render();
    assert_eq!(expected, result);
}

fn plain(width: usize) -> Banner<'static> {
    set_override(false);
    Banner::new().width(width)
}

fn rows_of(rendered: &str) -> Vec<&str> {
    rendered.split('\n').collect()
}

fn columns(row: &str) -> usize {
    textwrap::core::display_width(row)
}

#[test]
fn lipsum_scenario() {
    let rendered = plain(82)
        .text("LIPSUM".into())
        .text("Lorem ipsum dolor sit amet, consectetur adipiscing elit, sed do eiusmod tempor incididunt ut labore et dolore magna aliqua.".into())
        .render();
    let expected = [
        format!("┌{}┐", "─".repeat(80)),
        format!("│LIPSUM{}│", " ".repeat(74)),
        "│Lorem ipsum dolor sit amet, consectetur adipiscing elit, sed do eiusmod tempor  │"
            .to_string(),
        format!("│incididunt ut labore et dolore magna aliqua.{}│", " ".repeat(36)),
        format!("└{}┘", "─".repeat(80)),
    ]
    .join("\n");
    assert_eq!(expected, rendered);
    for row in rows_of(&rendered) {
        assert_eq!(82, columns(row));
    }
}

#[test]
fn borders_span_the_width() {
    let rendered = plain(30)
        .symbols(BoxSymbols::strong())
        .padding(Padding::one())
        .text("one".into())
        .divider()
        .render();
    let rows = rows_of(&rendered);
    let top = rows[0];
    let bottom = rows[rows.len() - 1];
    assert_eq!(format!("┏{}┓", "━".repeat(28)), top);
    assert_eq!(format!("┗{}┛", "━".repeat(28)), bottom);
    assert_eq!(30, columns(top));
    assert_eq!(30, columns(bottom));
    assert!(!rendered.ends_with('\n'));
}

#[test]
fn interior_rows_span_the_width() {
    let rendered = plain(40)
        .padding(Padding { top: 2, right: 3, bottom: 1, left: 4 })
        .text("short".into())
        .newline()
        .divider_with('*')
        .text(Text::from(PARAGRAPH).align(TextAlign::Center))
        .render();
    let rows = rows_of(&rendered);
    assert!(rows.len() > 8);
    for row in &rows[1..rows.len() - 1] {
        assert_eq!(40, columns(row));
        assert!(row.starts_with('│'));
        assert!(row.ends_with('│'));
    }
    assert_eq!(format!("│{}│", " ".repeat(38)), rows[1]);
    assert_eq!(format!("│{}│", " ".repeat(38)), rows[2]);
    assert_eq!(format!("│    short{}│", " ".repeat(29)), rows[3]);
    assert_eq!(format!("│{}│", " ".repeat(38)), rows[4]);
    assert_eq!(format!("│    {}   │", "*".repeat(31)), rows[5]);
    assert_eq!(format!("│{}│", " ".repeat(38)), rows[rows.len() - 2]);
}

#[test]
fn rendering_twice_gives_the_same_text() {
    let banner = plain(50)
        .padding(Padding::one())
        .text(Text::from(PARAGRAPH).align(TextAlign::Right))
        .divider();
    let first = banner.render();
    let second = banner.render();
    assert_eq!(first, second);
    assert_eq!(first, banner.render_at(50));
}

#[test]
fn right_aligned_text_ends_at_the_closing_rule() {
    let rendered = plain(82).text(Text::from("RIGHT").align(TextAlign::Right)).render();
    let rows = rows_of(&rendered);
    assert_eq!(3, rows.len());
    assert_eq!(format!("│{}RIGHT│", " ".repeat(75)), rows[1]);
}

#[test]
fn centered_text_has_even_slack() {
    let rendered = plain(82).text(Text::from("CENTER").align(TextAlign::Center)).render();
    let rows = rows_of(&rendered);
    assert_eq!(format!("│{}CENTER{}│", " ".repeat(37), " ".repeat(37)), rows[1]);
}

#[test]
fn centered_text_leaves_the_odd_column_on_the_right() {
    let rendered = plain(82).text(Text::from("CENTRED").align(TextAlign::Center)).render();
    let rows = rows_of(&rendered);
    assert_eq!(format!("│{}CENTRED{}│", " ".repeat(36), " ".repeat(37)), rows[1]);
}

#[test]
fn alignment_takes_the_right_padding_off_twice() {
    let padding = Padding { top: 0, right: 3, bottom: 0, left: 0 };
    let rendered = plain(30)
        .padding(padding)
        .text(Text::from("RIGHT").align(TextAlign::Right))
        .text(Text::from("MIDDLE").align(TextAlign::Center))
        .render();
    let rows = rows_of(&rendered);
    // right: 30 - 2 - 3 - 5 = 20 columns, less the padding again: 17 blanks
    assert_eq!(format!("│{}RIGHT{}│", " ".repeat(17), " ".repeat(6)), rows[1]);
    // center: (30 - 2 - 6) / 2 = 11 columns, less the padding: 8 blanks
    assert_eq!(format!("│{}MIDDLE{}│", " ".repeat(8), " ".repeat(14)), rows[2]);
}

#[test]
fn long_text_wraps_into_rows_within_the_budget() {
    let rendered = plain(82).padding(Padding::one()).text(PARAGRAPH.into()).render();
    let rows = rows_of(&rendered);
    assert_eq!(10, rows.len());
    for row in &rows[2..8] {
        assert_eq!(82, columns(row));
        assert!(row.starts_with("│ "));
        assert!(row.ends_with(" │"));
        assert!(!row.trim_matches(|c| c == '│' || c == ' ').is_empty());
    }
    let words: Vec<&str> = rows[2..8]
        .iter()
        .flat_map(|row| row.trim_matches(|c| c == '│' || c == ' ').split(' '))
        .collect();
    assert_eq!(PARAGRAPH.split(' ').collect::<Vec<&str>>(), words);
}

#[test]
fn divider_with_a_glyph_of_its_own() {
    let rendered = plain(82).divider_with('=').render();
    let expected = [
        format!("┌{}┐", "─".repeat(80)),
        format!("│{}│", "=".repeat(80)),
        format!("└{}┘", "─".repeat(80)),
    ]
    .join("\n");
    assert_eq!(expected, rendered);
}

#[test]
fn divider_uses_the_glyph_held_when_it_is_appended() {
    let rendered = plain(8).divider().symbols(BoxSymbols::strong()).divider().render();
    assert_eq!("┏━━━━━━┓\n┃──────┃\n┃━━━━━━┃\n┗━━━━━━┛", rendered);
}

#[test]
fn newline_and_space_divider_are_blank_rows() {
    let rendered = plain(7).padding(Padding::one()).newline().divider_with_space().render();
    assert_eq!("┌─────┐\n│     │\n│     │\n│     │\n│     │\n└─────┘", rendered);
}

#[test]
fn banner_without_content() {
    assert_eq!("┌──┐\n└──┘", plain(4).render());
    assert_eq!(
        "┌───┐\n│   │\n│   │\n│   │\n└───┘",
        plain(5).padding(Padding { top: 1, right: 0, bottom: 2, left: 0 }).render()
    );
}

#[test]
fn text_longer_than_the_width_is_not_aligned() {
    let rendered = plain(20)
        .text(Text::from("aaaaa bbbbb ccccc ddddd e").align(TextAlign::Right))
        .render();
    let expected = [
        "┌──────────────────┐",
        "│aaaaa bbbbb ccccc │",
        "│ddddd e           │",
        "└──────────────────┘",
    ]
    .join("\n");
    assert_eq!(expected, rendered);
}

#[test]
fn text_that_leaves_no_room_for_its_offset_gets_none() {
    // nine bytes at width ten: neither longer than the width nor short
    // enough to leave room between the rules
    let rendered = plain(10).text(Text::from("abcdefghi").align(TextAlign::Right)).render();
    assert_eq!("┌────────┐\n│abcdefgh│\n│i       │\n└────────┘", rendered);
    let rendered = plain(10).text(Text::from("abcdefghi").align(TextAlign::Center)).render();
    assert_eq!("┌────────┐\n│abcdefgh│\n│i       │\n└────────┘", rendered);
}

#[test]
fn width_below_two_keeps_the_corners() {
    assert_eq!("┌┐\n└┘", plain(0).render());
    assert_eq!("┌┐\n└┘", plain(1).render());
    assert_eq!("┌┐\n└┘", plain(2).render());
    assert_eq!("┌─┐\n└─┘", plain(3).render());
}

#[test]
fn width_below_the_paddings_draws_no_glyph() {
    let rendered = plain(3).padding(Padding::one()).divider_with('=').render();
    assert_eq!("┌─┐\n│ │\n│  │\n│ │\n└─┘", rendered);
}

#[test]
fn wide_characters_are_filled_by_their_columns() {
    let rendered = plain(10).text("你好".into()).render();
    let rows = rows_of(&rendered);
    // one column for the rule, four for the text: 10 - 1 - 5 = 4 blanks
    assert_eq!("│你好    │", rows[1]);
    assert_eq!(10, columns(rows[1]));
    assert_eq!(8, rows[1].chars().count());
}

#[test]
fn alignment_goes_by_the_length_in_bytes() {
    // six bytes, four columns: 10 - 2 - 6 = 2 leading blanks
    let rendered = plain(10).text(Text::from("你好").align(TextAlign::Right)).render();
    let rows = rows_of(&rendered);
    assert_eq!("│  你好  │", rows[1]);
    assert_eq!(10, columns(rows[1]));
}

#[test]
fn line_wider_than_the_width_gets_no_fill() {
    let rendered = plain(3).text("你".into()).render();
    let rows = rows_of(&rendered);
    assert_eq!(3, rows.len());
    assert_eq!("│你│", rows[1]);
    assert_eq!(4, columns(rows[1]));
}

#[test]
fn empty_text_takes_a_blank_row() {
    let rendered = plain(6).padding(Padding::one()).text("".into()).render();
    assert_eq!("┌────┐\n│    │\n│    │\n│    │\n└────┘", rendered);
}

#[test]
fn text_with_a_line_break_takes_a_row_per_line() {
    let rendered = plain(8).text("ab\ncd".into()).render();
    assert_eq!("┌──────┐\n│ab    │\n│cd    │\n└──────┘", rendered);
}

#[test]
fn content_keeps_its_order() {
    let rendered = plain(6)
        .text("a".into())
        .divider_with('-')
        .text("b".into())
        .newline()
        .text("c".into())
        .render();
    assert_eq!("┌────┐\n│a   │\n│----│\n│b   │\n│    │\n│c   │\n└────┘", rendered);
}

#[test]
fn explicit_width_is_not_needed_by_render_at() {
    set_override(false);
    let banner = Banner::new().text("x".into());
    assert_eq!("┌───┐\n│x  │\n└───┘", banner.render_at(5));
    assert_eq!("┌─┐\n│x│\n└─┘", banner.width(9).render_at(3));
}
