use ez_term::definitions::{ColorConfig, HorizontalAlignment, VerticalAlignment};
use ez_term::scheduler::SchedulerFrontend;
use ez_term::tabs::{get_header_colors, get_tab_content_size, is_header_in_view};
use ez_term::layout::{get_scroll_click, ScrollClick, grabs_scrollbar_thumb, is_on_scrollbar_line, add_empty_filler, add_horizontal_scrollbar, add_modal_contents, add_user_filler,
    add_vertical_scrollbar, horizontal_scroll_window, is_scrolling, largest_height, merge_horizontal_contents,
    merge_vertical_contents, overlay, vertical_scroll_window};
use ez_term::pixel::{Color, Pixel, PixelMap};
use ez_term::tabs::{fit_tab_headers, get_tab_difference, handle_tab_left, handle_tab_right, shift_position};

fn px(s: &str) -> Pixel {
    Pixel::new(s.to_string(), Color::White, Color::Black)
}

fn map(cols: &[&str]) -> PixelMap {
    cols.iter().map(|c| c.chars().map(|ch| px(&ch.to_string())).collect()).collect()
}

fn shown(m: &PixelMap) -> Vec<String> {
    m.iter().map(|c| c.iter().map(|p| p.symbol.clone()).collect()).collect()
}

#[test]
fn merge_horizontal_aligns_child_vertically() {
    let (m, y) = merge_horizontal_contents(map(&["a"]), map(&["b"]), 3, false, Color::White, Color::Black,
        VerticalAlignment::Middle, 0);
    assert_eq!(shown(&m), vec!["a", " b "]);
    assert_eq!(y, 1);
}

#[test]
fn merge_horizontal_with_unbounded_height() {
    let (m, y) = merge_horizontal_contents(map(&["a"]), map(&["b"]), 3, true, Color::White, Color::Black,
        VerticalAlignment::Bottom, 4);
    assert_eq!(shown(&m), vec!["a", "b"]);
    assert_eq!(y, 4);
}

#[test]
fn merge_vertical_fills_parent_width() {
    let (m, x) = merge_vertical_contents(map(&["a", "b"]), map(&["c"]), 3, false, Color::White,
        Color::Black, HorizontalAlignment::Left, 0, false);
    assert_eq!(shown(&m), vec!["ac", "b ", " "]);
    assert_eq!(x, 0);
}

#[test]
fn merge_vertical_centers_child() {
    let (m, x) = merge_vertical_contents(Vec::new(), map(&["c"]), 3, false, Color::White, Color::Black,
        HorizontalAlignment::Center, 2, false);
    assert_eq!(shown(&m), vec![" ", "c", " "]);
    assert_eq!(x, 3);
}

#[test]
fn merge_vertical_of_empty_child_changes_nothing() {
    let (m, x) = merge_vertical_contents(map(&["a"]), Vec::new(), 3, false, Color::White, Color::Black,
        HorizontalAlignment::Left, 7, false);
    assert_eq!(shown(&m), vec!["a"]);
    assert_eq!(x, 7);
}

#[test]
fn user_filler_replaces_blanks_and_fills() {
    let filler = Pixel::new(".".to_string(), Color::Red, Color::Blue);
    let m = add_user_filler(map(&[" q", "z"]), true, &filler, 2, 3);
    assert_eq!(shown(&m), vec![".q.", "z.."]);
    assert_eq!(m[0][0].foreground_color, Color::White);
    assert_eq!(m[0][2].foreground_color, Color::Red);
}

#[test]
fn user_filler_off_changes_nothing() {
    let filler = px(".");
    let m = add_user_filler(map(&[" "]), false, &filler, 5, 5);
    assert_eq!(shown(&m), vec![" "]);
}

#[test]
fn empty_filler_covers_effective_size() {
    let m = add_empty_filler(map(&["a"]), 2, 2, Color::White, Color::Black);
    assert_eq!(shown(&m), vec!["a ", "  "]);
    let m = add_empty_filler(map(&["abc", "d"]), 1, 2, Color::White, Color::Black);
    assert_eq!(shown(&m), vec!["abc", "d  "]);
    assert_eq!(largest_height(&m), 3);
}

#[test]
fn overlay_writes_inside_limits() {
    let base = map(&["...", "...", "..."]);
    let m = overlay(&base, &map(&["X"]), 1, 1, 3, 3);
    assert_eq!(shown(&m), vec!["...", ".X.", "..."]);
    let m = add_modal_contents(&base, &map(&["AB", "CD"]), 2, 2, 3, 3);
    assert_eq!(shown(&m), vec!["...", "...", "..A"]);
}

#[test]
fn scroll_windows() {
    assert!(is_scrolling(true, 5, 2));
    assert!(!is_scrolling(true, 2, 2));
    assert!(!is_scrolling(false, 5, 2));
    let m = horizontal_scroll_window(&map(&["a", "b", "c", "d", "e"]), 1, 2);
    assert_eq!(shown(&m), vec!["b", "c"]);
    let m = horizontal_scroll_window(&map(&["a", "b", "c"]), 2, 5);
    assert_eq!(shown(&m), vec!["c"]);
    let m = vertical_scroll_window(&map(&["abcd", "efgh"]), 1, 2);
    assert_eq!(shown(&m), vec!["bc", "fg"]);
}

#[test]
fn scrollbars() {
    let m = add_horizontal_scrollbar(map(&["a", "b", "c", "d"]), 1, 1, Color::White, Color::Black);
    assert_eq!(shown(&m), vec!["a ", "b\u{2580}", "c\u{2580}", "d "]);
    let m = add_vertical_scrollbar(map(&["ab"]), 3, 0, 0, Color::White, Color::Black);
    assert_eq!(shown(&m), vec!["ab", "\u{2590}  "]);
}

#[test]
fn tab_navigation() {
    let ids = vec!["a".to_string(), "b".to_string(), "c".to_string()];
    let mut selected = "a".to_string();
    assert!(handle_tab_right(&ids, &mut selected));
    assert_eq!(selected, "b");
    assert!(handle_tab_left(&ids, &mut selected));
    assert_eq!(selected, "a");
    assert!(!handle_tab_left(&ids, &mut selected));
    assert_eq!(selected, "a");
    let mut last = "c".to_string();
    assert!(!handle_tab_right(&ids, &mut last));
    let mut unknown = "x".to_string();
    assert!(!handle_tab_right(&ids, &mut unknown));
    assert!(!handle_tab_left(&ids, &mut unknown));
    assert_eq!(unknown, "x");
}

#[test]
fn tab_left_undoes_right_on_distinct_headers() {
    let ids = vec!["one".to_string(), "two".to_string(), "three".to_string()];
    for start in ["one", "two"] {
        let mut selected = start.to_string();
        assert!(handle_tab_right(&ids, &mut selected));
        assert!(handle_tab_left(&ids, &mut selected));
        assert_eq!(selected, start);
    }
}

#[test]
fn tab_headers_scroll_to_selection() {
    assert_eq!(get_tab_difference(4, 6, 3, 2), 4);
    assert_eq!(get_tab_difference(4, 6, 1, 1), 3);
    assert_eq!(get_tab_difference(4, 6, 0, 1), 0);
    assert_eq!(get_tab_difference(8, 6, 3, 2), 0);
    assert_eq!(shift_position(2, 3), 0);
    assert_eq!(shift_position(5, 3), 2);
    let (m, d) = fit_tab_headers(&map(&["aaa", "bbb", "ccc", "ddd", "eee", "fff"]), 4, 3, 2, Color::White,
        Color::Black);
    assert_eq!(d, 4);
    assert_eq!(shown(&m), vec!["eee", "fff", "   ", "   "]);
    let (m, d) = fit_tab_headers(&map(&["aaa", "bbb"]), 3, 0, 1, Color::White, Color::Black);
    assert_eq!(d, 0);
    assert_eq!(shown(&m), vec!["aaa", "bbb", "   "]);
}

#[test]
fn tab_headers_take_their_colors() {
    let mut s = SchedulerFrontend::new();
    let colors = ColorConfig::new("/root/tabs".to_string(), &mut s);
    let sel = get_header_colors(&"a_tab_header".to_string(), &"a_tab_header".to_string(), &"b".to_string(),
        &"a".to_string(), &colors);
    assert_eq!(sel, (colors.get_selection_fg_color(), colors.get_selection_bg_color()));
    let active = get_header_colors(&"".to_string(), &"b_tab_header".to_string(), &"b".to_string(),
        &"b".to_string(), &colors);
    assert_eq!(active, (colors.get_active_fg_color(), colors.get_active_bg_color()));
    let other = get_header_colors(&"".to_string(), &"c_tab_header".to_string(), &"b".to_string(),
        &"c".to_string(), &colors);
    assert_eq!(other, (colors.get_tab_fg_color(), colors.get_tab_bg_color()));
    assert!(is_header_in_view(&"".to_string(), &"b_tab_header".to_string(), &"b".to_string()));
    assert!(!is_header_in_view(&"".to_string(), &"c_tab_header".to_string(), &"b".to_string()));
    assert!(is_header_in_view(&"c_tab_header".to_string(), &"c_tab_header".to_string(), &"b".to_string()));
    assert_eq!(get_tab_content_size(10, 8), (9, 3));
    assert_eq!(get_tab_content_size(0, 2), (0, 0));
}

#[test]
fn dragging_finds_the_scrollbar() {
    assert!(is_on_scrollbar_line(8, true, 10));
    assert!(!is_on_scrollbar_line(9, true, 10));
    assert!(is_on_scrollbar_line(9, false, 10));
    assert!(!is_on_scrollbar_line(0, true, 1));
    assert!(grabs_scrollbar_thumb(3, 2, 4));
    assert!(grabs_scrollbar_thumb(6, 2, 4));
    assert!(!grabs_scrollbar_thumb(7, 2, 4));
    assert!(!grabs_scrollbar_thumb(1, 2, 4));
}

#[test]
fn clicks_beside_the_thumb_scroll() {
    assert_eq!(get_scroll_click(1, 2, 3), ScrollClick::Back);
    assert_eq!(get_scroll_click(2, 2, 3), ScrollClick::Nothing);
    assert_eq!(get_scroll_click(5, 2, 3), ScrollClick::Nothing);
    assert_eq!(get_scroll_click(6, 2, 3), ScrollClick::Forward);
}
