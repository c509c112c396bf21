use peter::{strip_sgr, Color, Style, Styled, Stylize};

/// Check that width parameters does not include the ansi codes.
#[test]
fn format_width() {
    let result = "test".bold().blue().render_width(8);
    assert_eq!(result, "    \u{1b}[1;34mtest\u{1b}[0m".as_bytes().to_vec());
}

#[test]
fn render_is_deterministic() {
    let styled = "same".underline().magenta();
    let first = styled.render();
    let second = styled.render();
    assert_eq!(first, second);
}

#[test]
fn plain_wrapper_is_identity() {
    let styled = Styled::new("hello".as_bytes().to_vec());
    assert_eq!(styled.render(), "hello".as_bytes().to_vec());
}

#[test]
fn styled_string_value() {
    let owned = String::from("owned");
    let result = owned.red().render();
    assert_eq!(result, "\u{1b}[31mowned\u{1b}[0m".as_bytes().to_vec());
}

#[test]
fn accumulating_chain_merges_into_one_pair() {
    let result = "x".red().bold().render();
    assert_eq!(result, "\u{1b}[1;31mx\u{1b}[0m".as_bytes().to_vec());
}

#[test]
fn nesting_produces_two_pairs() {
    let result = "x".bold().nest().red().render();
    assert_eq!(
        result,
        "\u{1b}[31m\u{1b}[1mx\u{1b}[0m\u{1b}[0m".as_bytes().to_vec()
    );
}

#[test]
fn every_attribute_code() {
    assert_eq!("a".bold().render(), "\u{1b}[1ma\u{1b}[0m".as_bytes().to_vec());
    assert_eq!("a".dim().render(), "\u{1b}[2ma\u{1b}[0m".as_bytes().to_vec());
    assert_eq!("a".italic().render(), "\u{1b}[3ma\u{1b}[0m".as_bytes().to_vec());
    assert_eq!(
        "a".underline().render(),
        "\u{1b}[4ma\u{1b}[0m".as_bytes().to_vec()
    );
    assert_eq!("a".blink().render(), "\u{1b}[5ma\u{1b}[0m".as_bytes().to_vec());
    assert_eq!("a".reverse().render(), "\u{1b}[7ma\u{1b}[0m".as_bytes().to_vec());
    assert_eq!("a".hidden().render(), "\u{1b}[8ma\u{1b}[0m".as_bytes().to_vec());
    assert_eq!(
        "a".strikethrough().render(),
        "\u{1b}[9ma\u{1b}[0m".as_bytes().to_vec()
    );
}

#[test]
fn every_named_foreground() {
    assert_eq!("a".black().render(), "\u{1b}[30ma\u{1b}[0m".as_bytes().to_vec());
    assert_eq!("a".red().render(), "\u{1b}[31ma\u{1b}[0m".as_bytes().to_vec());
    assert_eq!("a".green().render(), "\u{1b}[32ma\u{1b}[0m".as_bytes().to_vec());
    assert_eq!("a".yellow().render(), "\u{1b}[33ma\u{1b}[0m".as_bytes().to_vec());
    assert_eq!("a".blue().render(), "\u{1b}[34ma\u{1b}[0m".as_bytes().to_vec());
    assert_eq!("a".magenta().render(), "\u{1b}[35ma\u{1b}[0m".as_bytes().to_vec());
    assert_eq!("a".cyan().render(), "\u{1b}[36ma\u{1b}[0m".as_bytes().to_vec());
    assert_eq!("a".white().render(), "\u{1b}[37ma\u{1b}[0m".as_bytes().to_vec());
}

#[test]
fn named_background() {
    let result = "a".bg(Color::Green).render();
    assert_eq!(result, "\u{1b}[42ma\u{1b}[0m".as_bytes().to_vec());
}

#[test]
fn palette_color() {
    let result = "z".fg(Color::fixed(200)).render();
    assert_eq!(result, "\u{1b}[38;5;200mz\u{1b}[0m".as_bytes().to_vec());
}

#[test]
fn palette_background() {
    let result = "z".bg(Color::fixed(7)).render();
    assert_eq!(result, "\u{1b}[48;5;7mz\u{1b}[0m".as_bytes().to_vec());
}

#[test]
fn rgb_color() {
    let result = "z".fg(Color::rgb(1, 22, 255)).render();
    assert_eq!(result, "\u{1b}[38;2;1;22;255mz\u{1b}[0m".as_bytes().to_vec());
}

#[test]
fn rgb_background() {
    let result = "z".bg(Color::rgb(0, 128, 9)).render();
    assert_eq!(result, "\u{1b}[48;2;0;128;9mz\u{1b}[0m".as_bytes().to_vec());
}

#[test]
fn latest_foreground_wins() {
    let result = "x".red().blue().render();
    assert_eq!(result, "\u{1b}[34mx\u{1b}[0m".as_bytes().to_vec());
}

#[test]
fn full_chain_in_canonical_order() {
    let result = "w"
        .style(Style::Strikethrough)
        .bg(Color::White)
        .fg(Color::Black)
        .bold()
        .render();
    assert_eq!(result, "\u{1b}[1;9;30;47mw\u{1b}[0m".as_bytes().to_vec());
}

#[test]
fn merge_unions_attributes_and_prefers_newer_colors() {
    let base = "m".bold().red();
    let addition = "ignored".underline().blue().decoration();
    let merged = Styled::new(base.content().clone()).render();
    assert_eq!(merged, "m".as_bytes().to_vec());
    let combined = Styled {
        text: base.content().clone(),
        dec: base.decoration().merge(addition),
    };
    assert_eq!(
        combined.render(),
        "\u{1b}[1;4;34mm\u{1b}[0m".as_bytes().to_vec()
    );
}

#[test]
fn width_already_wide_enough() {
    let result = "abcdefgh".bold().render_width(8);
    assert_eq!(result, "\u{1b}[1mabcdefgh\u{1b}[0m".as_bytes().to_vec());
}

#[test]
fn width_on_plain_wrapper() {
    let result = Styled::new("ab".as_bytes().to_vec()).render_width(4);
    assert_eq!(result, "  ab".as_bytes().to_vec());
}

#[test]
fn width_counts_visible_not_escape_bytes() {
    let nested = "x".bold().nest();
    assert_eq!(nested.content().len(), 9);
    let result = nested.render_width(5);
    assert_eq!(result, "    \u{1b}[1mx\u{1b}[0m".as_bytes().to_vec());
}

#[test]
fn width_counts_characters_not_bytes() {
    let result = "héllo→".cyan().render_width(8);
    assert_eq!(result, "  \u{1b}[36mhéllo→\u{1b}[0m".as_bytes().to_vec());
}

#[test]
fn width_zero_pads_nothing() {
    let result = "ab".bold().render_width(0);
    assert_eq!(result, "\u{1b}[1mab\u{1b}[0m".as_bytes().to_vec());
}

#[test]
fn strip_undoes_rendering() {
    let rendered = "round trip".bold().fg(Color::rgb(9, 99, 199)).render();
    assert_eq!(strip_sgr(&rendered), "round trip".as_bytes().to_vec());
}

#[test]
fn strip_undoes_nested_rendering() {
    let rendered = "deep".underline().nest().bg(Color::fixed(17)).render();
    assert_eq!(strip_sgr(&rendered), "deep".as_bytes().to_vec());
}

#[test]
fn strip_keeps_escape_free_text() {
    let text = "no escapes here".as_bytes().to_vec();
    assert_eq!(strip_sgr(&text), text);
}

#[test]
fn strip_keeps_unterminated_escape() {
    let text = "\u{1b}[12".as_bytes().to_vec();
    assert_eq!(strip_sgr(&text), text);
    let lone = "\u{1b}x".as_bytes().to_vec();
    assert_eq!(strip_sgr(&lone), lone);
}

#[test]
fn wrapper_is_transparent_about_its_content() {
    let styled = "inner".bold();
    assert_eq!(styled.content().as_slice(), "inner".as_bytes());
    let plain = Styled::new(Vec::new());
    assert!(plain.decoration().is_plain());
    assert!(!styled.decoration().is_plain());
}

#[test]
fn unicode_text_passes_through() {
    let rendered = "héllo→".cyan().render();
    assert_eq!(rendered, "\u{1b}[36mhéllo→\u{1b}[0m".as_bytes().to_vec());
    assert_eq!(strip_sgr(&rendered), "héllo→".as_bytes().to_vec());
}
