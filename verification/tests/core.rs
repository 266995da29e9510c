use ez_term::definitions::{BorderConfig, ColorConfig, HorizontalAlignment, LayoutOrientation, Padding,
    StateSize, TableConfig, VerticalAlignment};
use ez_term::geometry::{collides, get_box, get_box_coords, get_effective_size, outer_length_of, overlaps};
use ez_term::helpers::{add_border, add_padding, align_content_horizontally, align_content_vertically};
use ez_term::pixel::{Color, Coordinates, IsizeCoordinates, Pixel, PixelMap};
use ez_term::scheduler::{clean_up_property, join_name, SchedulerFrontend};
use ez_term::table::{get_rows_and_cols, get_table_model};
use ez_term::text_input::{get_view_parts, handle_backspace, handle_char, handle_delete, handle_left, handle_right,
    TextInputState};

fn px(s: &str) -> Pixel {
    Pixel::new(s.to_string(), Color::White, Color::Black)
}

fn map(cols: &[&str]) -> PixelMap {
    cols.iter().map(|c| c.chars().map(|ch| px(&ch.to_string())).collect()).collect()
}

fn shown(m: &PixelMap) -> Vec<String> {
    m.iter().map(|c| c.iter().map(|p| p.symbol.clone()).collect()).collect()
}

#[test]
fn border_surrounds_content() {
    let mut s = SchedulerFrontend::new();
    let config = BorderConfig::new(true, "/root/w".to_string(), &mut s);
    let colors = ColorConfig::new("/root/w".to_string(), &mut s);
    let m = add_border(map(&["ab"]), &config, &colors);
    assert_eq!(shown(&m), vec!["\u{250c}\u{2502}\u{2502}\u{2514}", "\u{2500}ab\u{2500}",
        "\u{2510}\u{2502}\u{2502}\u{2518}"]);
    assert!(add_border(Vec::new(), &config, &colors).is_empty());
}

#[test]
fn padding_surrounds_content() {
    let mut s = SchedulerFrontend::new();
    let padding = Padding::new(1, 0, 1, 2, "/root/w".to_string(), &mut s);
    let m = add_padding(map(&["x"]), &padding, Color::Red, Color::Blue);
    assert_eq!(shown(&m), vec!["  ", " x", "  ", "  "]);
    assert_eq!(m[0][0].background_color, Color::Red);
    assert_eq!(m[0][0].foreground_color, Color::Blue);
}

#[test]
fn horizontal_alignment_offsets() {
    let (m, offset) = align_content_horizontally(map(&["a"]), HorizontalAlignment::Right, 3, ".".to_string(),
        Color::White, Color::Black);
    assert_eq!(shown(&m), vec![".", ".", "a"]);
    assert_eq!(offset, 2);
    let (m, offset) = align_content_horizontally(map(&["a", "b"]), HorizontalAlignment::Center, 5,
        ".".to_string(), Color::White, Color::Black);
    assert_eq!(shown(&m), vec![".", "a", "b", ".", "."]);
    assert_eq!(offset, 1);
}

#[test]
fn vertical_alignment_offsets() {
    let (m, offset) = align_content_vertically(map(&["a"]), VerticalAlignment::Bottom, 3, ".".to_string(),
        Color::White, Color::Black);
    assert_eq!(shown(&m), vec!["..a"]);
    assert_eq!(offset, 2);
    let (m, offset) = align_content_vertically(map(&["a"]), VerticalAlignment::Top, 2, ".".to_string(),
        Color::White, Color::Black);
    assert_eq!(shown(&m), vec!["a"]);
    assert_eq!(offset, 0);
    let (m, offset) = align_content_vertically(map(&["a", "b"]), VerticalAlignment::Middle, 4, ".".to_string(),
        Color::White, Color::Black);
    assert_eq!(shown(&m), vec![".a..", ".b.."]);
    assert_eq!(offset, 1);
}

#[test]
fn effective_size_round_trip() {
    let mut s = SchedulerFrontend::new();
    let size = StateSize::new(10, 5, "/root/w".to_string(), &mut s);
    let border = BorderConfig::new(true, "/root/w".to_string(), &mut s);
    let padding = Padding::new(1, 1, 2, 2, "/root/w".to_string(), &mut s);
    let eff = get_effective_size(&size, &border, &padding);
    assert_eq!((eff.width, eff.height), (4, 1));
    assert_eq!(outer_length_of(4, true, 2, 2), 10);
    assert_eq!(outer_length_of(1, true, 1, 1), 5);
    let small = StateSize::new(3, 1, "/root/v".to_string(), &mut s);
    let eff = get_effective_size(&small, &border, &padding);
    assert_eq!((eff.width, eff.height), (0, 0));
}

#[test]
fn collision_and_overlap() {
    let mut s = SchedulerFrontend::new();
    let size = StateSize::new(3, 3, "/root/w".to_string(), &mut s);
    assert!(collides(IsizeCoordinates::new(0, 0), &size, IsizeCoordinates::new(2, 2)));
    assert!(!collides(IsizeCoordinates::new(0, 0), &size, IsizeCoordinates::new(3, 0)));
    assert!(!collides(IsizeCoordinates::new(1, 1), &size, IsizeCoordinates::new(0, 1)));
    let a = get_box(Coordinates::new(0, 0), &size);
    assert_eq!(a.1, Coordinates::new(3, 3));
    assert!(overlaps(a, (Coordinates::new(2, 2), Coordinates::new(5, 5))));
    assert!(overlaps((Coordinates::new(2, 2), Coordinates::new(5, 5)), a));
    assert!(!overlaps(a, (Coordinates::new(3, 0), Coordinates::new(5, 5))));
    let coords = get_box_coords(Coordinates::new(0, 0), Coordinates::new(1, 1));
    assert_eq!(coords, vec![Coordinates::new(0, 0), Coordinates::new(0, 1), Coordinates::new(1, 0),
        Coordinates::new(1, 1)]);
}

#[test]
fn table_shape_and_model() {
    let mut s = SchedulerFrontend::new();
    let mut config = TableConfig::new("/root/t".to_string(), &mut s);
    assert_eq!(config.get_rows(), 0);
    assert_eq!(config.get_cols(), 4);
    assert_eq!(get_rows_and_cols(&config, 9), (3, 4));
    config.set_rows(2);
    config.set_cols(0);
    assert_eq!(get_rows_and_cols(&config, 5), (2, 3));
    config.set_rows(3);
    config.set_cols(3);
    let (table, rows, cols) = get_table_model(&config, LayoutOrientation::RightLeftTopBottom, 9);
    assert_eq!((rows, cols), (3, 3));
    assert_eq!(table, vec![vec![2, 5, 8], vec![1, 4, 7], vec![0, 3, 6]]);
    let (table, _, _) = get_table_model(&config, LayoutOrientation::LeftRightTopBottom, 9);
    assert_eq!(table, vec![vec![0, 3, 6], vec![1, 4, 7], vec![2, 5, 8]]);
}

#[test]
fn scheduler_registers_and_cleans_up() {
    let mut s = SchedulerFrontend::new();
    let name = join_name(&"/root/w".to_string(), "/x");
    assert_eq!(name, "/root/w/x");
    let p = s.new_usize_property(name.clone(), 4);
    assert_eq!(*p.get(), 4);
    s.new_bool_property("/root/w/y".to_string(), true);
    s.new_usize_property(name.clone(), 5);
    assert_eq!(s.properties.len(), 3);
    clean_up_property(&mut s, &name);
    assert_eq!(s.properties, vec!["/root/w/y".to_string()]);
}

fn text_input(s: &mut SchedulerFrontend) -> TextInputState {
    let mut state = TextInputState::new("/root/input".to_string(), s);
    state.border_config.set_border(false);
    state.size.set_width(6);
    state.set_max_length(10);
    state
}

#[test]
fn view_parts_split_text() {
    let (pre, view, post) = get_view_parts("hello world".to_string(), 2, 5);
    assert_eq!((pre.as_str(), view.as_str(), post.as_str()), ("he", "llo ", "world"));
    let (pre, view, post) = get_view_parts("hi".to_string(), 0, 5);
    assert_eq!((pre.as_str(), view.as_str(), post.as_str()), ("", "hi", ""));
}

#[test]
fn text_input_editing() {
    let mut s = SchedulerFrontend::new();
    let mut state = text_input(&mut s);
    handle_char(&mut state, 'a', &mut s);
    handle_char(&mut state, 'b', &mut s);
    handle_char(&mut state, 'c', &mut s);
    assert_eq!(state.get_text(), "abc");
    assert_eq!(state.get_cursor_pos().x, 3);
    handle_left(&mut state, &mut s);
    assert_eq!(state.get_cursor_pos().x, 2);
    handle_backspace(&mut state, &mut s);
    assert_eq!(state.get_text(), "ac");
    assert_eq!(state.get_cursor_pos().x, 1);
    handle_delete(&mut state, &mut s);
    assert_eq!(state.get_text(), "a");
    handle_right(&mut state, &mut s);
    assert_eq!(state.get_cursor_pos().x, 1);
    handle_left(&mut state, &mut s);
    handle_left(&mut state, &mut s);
    assert_eq!(state.get_cursor_pos().x, 0);
}

#[test]
fn text_input_backspace_undoes_typing() {
    let mut s = SchedulerFrontend::new();
    let mut state = text_input(&mut s);
    handle_char(&mut state, 'a', &mut s);
    handle_char(&mut state, 'b', &mut s);
    handle_left(&mut state, &mut s);
    let before = (state.get_text(), state.get_cursor_pos().x, state.get_view_start());
    handle_char(&mut state, 'x', &mut s);
    assert_eq!(state.get_text(), "axb");
    handle_backspace(&mut state, &mut s);
    assert_eq!((state.get_text(), state.get_cursor_pos().x, state.get_view_start()), before);
}

#[test]
fn text_input_full_ignores_typing() {
    let mut s = SchedulerFrontend::new();
    let mut state = text_input(&mut s);
    state.set_max_length(1);
    handle_char(&mut state, 'a', &mut s);
    handle_char(&mut state, 'b', &mut s);
    assert_eq!(state.get_text(), "a");
}

#[test]
fn text_input_measures_bytes() {
    let (pre, view, post) = get_view_parts("éab".to_string(), 2, 3);
    assert_eq!((pre.as_str(), view.as_str(), post.as_str()), ("é", "ab", ""));
    let mut s = SchedulerFrontend::new();
    let mut state = text_input(&mut s);
    state.set_max_length(2);
    handle_char(&mut state, 'é', &mut s);
    assert_eq!(state.get_text(), "é");
    assert_eq!(state.get_cursor_pos().x, 1);
    handle_char(&mut state, 'b', &mut s);
    assert_eq!(state.get_text(), "é");
}
