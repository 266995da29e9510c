use ez_term::pixel::{Color, Pixel};
use ez_term::text::{format_graphemes, format_text, graphemes, lookup_color, starts_with, text_after_first};
use ez_term::wrap::wrap_text;

fn plain(c: &str) -> Pixel {
    Pixel::new(c.to_string(), Color::White, Color::Black)
}

fn pixels_of(s: &str) -> Vec<Pixel> {
    s.chars().map(|c| plain(&c.to_string())).collect()
}

fn symbols(line: &Vec<Pixel>) -> String {
    line.iter().map(|p| p.symbol.clone()).collect()
}

fn palette() -> Vec<(String, Color)> {
    vec![("red".to_string(), Color::Red), ("blue".to_string(), Color::Blue)]
}

#[test]
fn graphemes_keep_combining_marks_together() {
    let g = graphemes(&"a\u{310}e\u{301}o\u{308}\u{332}".to_string());
    assert_eq!(g, vec!["a\u{310}".to_string(), "e\u{301}".to_string(), "o\u{308}\u{332}".to_string()]);
}

#[test]
fn graphemes_keep_crlf_and_flags_together() {
    let g = graphemes(&"a\r\nb\u{1F1F7}\u{1F1FA}".to_string());
    assert_eq!(g, vec!["a".to_string(), "\r\n".to_string(), "b".to_string(), "\u{1F1F7}\u{1F1FA}".to_string()]);
}

#[test]
fn graphemes_of_empty_text() {
    assert!(graphemes(&String::new()).is_empty());
}

#[test]
fn format_bold_tag() {
    let (text, pixels) = format_text(&"[b]hi[/b]!".to_string(), &plain(" "), &palette()).unwrap();
    assert_eq!(text, "hi!");
    assert_eq!(pixels.len(), 3);
    assert_eq!(pixels[0].symbol, "h");
    assert!(pixels[0].bold);
    assert!(pixels[1].bold);
    assert!(!pixels[2].bold);
    assert_eq!(pixels[2].symbol, "!");
}

#[test]
fn format_tags_ignore_case() {
    let (text, pixels) = format_text(&"[U]x[/u]y".to_string(), &plain(" "), &palette()).unwrap();
    assert_eq!(text, "xy");
    assert!(pixels[0].underline);
    assert!(!pixels[1].underline);
}

#[test]
fn format_italic_and_strike_through() {
    let (_, pixels) = format_text(&"[i][s]z".to_string(), &plain(" "), &palette()).unwrap();
    assert!(pixels[0].italic);
    assert!(pixels[0].strike_through);
    assert!(!pixels[0].bold);
}

#[test]
fn format_escaped_bracket_is_shown() {
    let (text, pixels) = format_text(&"\\[b]".to_string(), &plain(" "), &palette()).unwrap();
    assert_eq!(text, "\\[b");
    assert_eq!(pixels.len(), 3);
    assert!(!pixels[2].bold);
}

#[test]
fn format_colors_from_palette() {
    let (text, pixels) = format_text(&"[color=red]a[/color]b".to_string(), &plain(" "), &palette()).unwrap();
    assert_eq!(text, "ab");
    assert_eq!(pixels[0].foreground_color, Color::Red);
    assert_eq!(pixels[1].foreground_color, Color::White);
}

#[test]
fn format_background_color_from_palette() {
    let (_, pixels) = format_text(&"[bg_color=blue]a".to_string(), &plain(" "), &palette()).unwrap();
    assert_eq!(pixels[0].background_color, Color::Blue);
    assert_eq!(pixels[0].foreground_color, Color::White);
}

#[test]
fn format_unknown_color_fails() {
    assert!(format_text(&"[color=mauve]a".to_string(), &plain(" "), &palette()).is_none());
    assert!(format_text(&"[colour]a".to_string(), &plain(" "), &palette()).is_some());
    assert!(format_text(&"[colorx]a".to_string(), &plain(" "), &palette()).is_none());
}

#[test]
fn format_keeps_graphemes_whole() {
    let (text, pixels) = format_text(&"e\u{301}x".to_string(), &plain(" "), &palette()).unwrap();
    assert_eq!(text, "ex");
    assert_eq!(pixels[0].symbol, "e\u{301}");
    assert_eq!(pixels[1].symbol, "x");
}

#[test]
fn format_given_graphemes() {
    let gs = vec!["[".to_string(), "b".to_string(), "]".to_string(), "ab".to_string()];
    let (text, pixels) = format_graphemes(&gs, &plain(" "), &palette()).unwrap();
    assert_eq!(text, "a");
    assert_eq!(pixels[0].symbol, "ab");
    assert!(pixels[0].bold);
}

#[test]
fn color_lookup_and_search() {
    assert_eq!(lookup_color(&palette(), &"blue".to_string()), Some(Color::Blue));
    assert_eq!(lookup_color(&palette(), &"green".to_string()), None);
    assert_eq!(text_after_first(&"colorcolor=red".to_string(), &"color=".to_string()), Some("red".to_string()));
    assert_eq!(text_after_first(&"abc".to_string(), &"x".to_string()), None);
    assert!(starts_with(&"bg_color=red".to_string(), &"bg_".to_string()));
    assert!(!starts_with(&"bg".to_string(), &"bg_".to_string()));
}

#[test]
fn wrap_at_trailing_space() {
    let lines = wrap_text(&"hello world".to_string(), 6, &pixels_of("hello world")).unwrap();
    let shown: Vec<String> = lines.iter().map(symbols).collect();
    assert_eq!(shown, vec!["hello ".to_string(), "world".to_string()]);
}

#[test]
fn wrap_at_last_space_drops_it() {
    let lines = wrap_text(&"ab cd ef".to_string(), 4, &pixels_of("ab cd ef")).unwrap();
    let shown: Vec<String> = lines.iter().map(symbols).collect();
    assert_eq!(shown, vec!["ab".to_string(), "cd".to_string(), "ef".to_string()]);
}

#[test]
fn wrap_long_word_is_cut() {
    let lines = wrap_text(&"abcdef".to_string(), 4, &pixels_of("abcdef")).unwrap();
    let shown: Vec<String> = lines.iter().map(symbols).collect();
    assert_eq!(shown, vec!["abcd".to_string(), "ef".to_string()]);
}

#[test]
fn wrap_at_line_break() {
    let lines = wrap_text(&"a\nbc".to_string(), 3, &pixels_of("a\nbc")).unwrap();
    let shown: Vec<String> = lines.iter().map(symbols).collect();
    assert_eq!(shown, vec!["a".to_string(), "\nbc".to_string()]);
}

#[test]
fn wrap_empty_lines_between_breaks() {
    let lines = wrap_text(&"a\n\nbcdef".to_string(), 4, &pixels_of("a\n\nbcdef")).unwrap();
    assert_eq!(symbols(&lines[0]), "a");
    assert_eq!(symbols(&lines[1]), "");
}

#[test]
fn wrap_zero_width_gives_no_lines() {
    assert!(wrap_text(&"abc".to_string(), 0, &pixels_of("abc")).unwrap().is_empty());
}

#[test]
fn wrap_short_text_is_one_line() {
    let lines = wrap_text(&"hi".to_string(), 10, &pixels_of("hi")).unwrap();
    assert_eq!(lines.len(), 1);
    assert_eq!(symbols(&lines[0]), "hi");
}

#[test]
fn wrap_fails_when_pixels_run_out() {
    assert!(wrap_text(&"ab".to_string(), 1, &Vec::new()).is_none());
}

#[test]
fn wrap_width_counts_bytes() {
    let lines = wrap_text(&"éa".to_string(), 3, &pixels_of("éa")).unwrap();
    let shown: Vec<String> = lines.iter().map(symbols).collect();
    assert_eq!(shown, vec!["éa".to_string(), "".to_string()]);
    let lines = wrap_text(&"éa".to_string(), 4, &pixels_of("éa")).unwrap();
    assert_eq!(lines.len(), 1);
    let lines = wrap_text(&"aébc".to_string(), 3, &pixels_of("aébc")).unwrap();
    let shown: Vec<String> = lines.iter().map(symbols).collect();
    assert_eq!(shown, vec!["aé".to_string(), "bc".to_string()]);
}

#[test]
fn wrap_fails_inside_a_character() {
    assert!(wrap_text(&"éa".to_string(), 1, &pixels_of("éa")).is_none());
}
