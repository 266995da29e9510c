use ez_term::box_mode::{get_child_absolute_position, prepare_horizontal_child, prepare_vertical_child,
    record_horizontal_child, record_vertical_child, scale_to_largest_child, BoxFrame, ChildSizing};
use ez_term::definitions::{ColorConfig, LayoutOrientation};
use ez_term::float_mode::{float_background, place_float_child, size_float_child, trim_float_contents};
use ez_term::pixel::{Color, IsizeCoordinates, Pixel, PixelMap};
use ez_term::scheduler::SchedulerFrontend;

fn px(s: &str) -> Pixel {
    Pixel::new(s.to_string(), Color::White, Color::Black)
}

fn map(cols: &[&str]) -> PixelMap {
    cols.iter().map(|c| c.chars().map(|ch| px(&ch.to_string())).collect()).collect()
}

fn shown(m: &PixelMap) -> Vec<String> {
    m.iter().map(|c| c.iter().map(|p| p.symbol.clone()).collect()).collect()
}

fn child(width: usize, height: usize) -> ChildSizing {
    ChildSizing { width, height, infinite_width: false, infinite_height: false, auto_scale_width: false,
        auto_scale_height: false, x: 9, y: 9 }
}

fn frame() -> BoxFrame {
    BoxFrame { width: 10, height: 4, infinite_width: false, infinite_height: false, scroll_x: false, scroll_y: false }
}

#[test]
fn horizontal_box_cuts_children_to_room_left() {
    let c = prepare_horizontal_child(&frame(), child(8, 6), 4);
    assert_eq!((c.width, c.height, c.x, c.y), (6, 4, 4, 0));
    let c = prepare_horizontal_child(&frame(), child(2, 1), 4);
    assert_eq!((c.width, c.height), (2, 1));
    let mut auto = child(1, 1);
    auto.auto_scale_width = true;
    auto.auto_scale_height = true;
    let c = prepare_horizontal_child(&frame(), auto, 3);
    assert_eq!((c.width, c.height), (7, 4));
    let c = prepare_horizontal_child(&frame(), child(3, 3), 12);
    assert_eq!(c.width, 0);
}

#[test]
fn scrolling_box_makes_children_unbounded() {
    let mut f = frame();
    f.scroll_x = true;
    let c = prepare_horizontal_child(&f, child(30, 2), 4);
    assert!(c.infinite_width);
    assert!(!c.infinite_height);
    assert_eq!(c.width, 30);
}

#[test]
fn vertical_box_cuts_children_to_room_left() {
    let c = prepare_vertical_child(&frame(), child(12, 3), 2);
    assert_eq!((c.width, c.height, c.x, c.y), (10, 2, 0, 2));
    let mut auto = child(1, 1);
    auto.auto_scale_height = true;
    let c = prepare_vertical_child(&frame(), auto, 1);
    assert_eq!(c.height, 3);
}

#[test]
fn children_take_the_size_they_drew() {
    let mut c = child(1, 1);
    c.infinite_width = true;
    c.infinite_height = true;
    let (after, next) = record_horizontal_child(c, &map(&["ab", "cd", "ef"]), 2);
    assert_eq!((after.width, after.height, next), (3, 2, 5));
    let (after, next) = record_horizontal_child(child(1, 1), &Vec::new(), 2);
    assert_eq!((after.width, after.height, next), (1, 1, 2));
    let (after, next) = record_vertical_child(c, &map(&["abc", "d"]), 1);
    assert_eq!((after.width, after.height, next), (2, 3, 4));
    let (_, next) = record_vertical_child(child(1, 1), &Vec::new(), 1);
    assert_eq!(next, 1);
}

#[test]
fn box_scales_to_children() {
    let list = vec![map(&["ab", "c"]), map(&["defg"])];
    assert_eq!(scale_to_largest_child(&list, LayoutOrientation::Horizontal), (3, 4));
    assert_eq!(scale_to_largest_child(&list, LayoutOrientation::Vertical), (2, 6));
    assert_eq!(scale_to_largest_child(&Vec::new(), LayoutOrientation::Vertical), (0, 0));
}

#[test]
fn child_positions_follow_scrolling() {
    let p = get_child_absolute_position(IsizeCoordinates::new(5, 5), 2, 3, false, false, 10, 10, 4, 4);
    assert_eq!((p.x, p.y), (7, 8));
    let p = get_child_absolute_position(IsizeCoordinates::new(5, 5), 2, 3, true, true, 3, 0, 7, 4);
    assert_eq!((p.x, p.y), (0, 8));
}

#[test]
fn float_layout_places_children() {
    let mut s = SchedulerFrontend::new();
    let colors = ColorConfig::new("/root/f".to_string(), &mut s);
    let bg = float_background(Vec::new(), 3, 2, true, &".".to_string(), &colors);
    assert_eq!(shown(&bg), vec!["..", "..", ".."]);
    let bg2 = float_background(Vec::new(), 1, 1, false, &".".to_string(), &colors);
    assert_eq!(shown(&bg2), vec![" "]);
    let (placed, fx, fy) = place_float_child(&bg, &map(&["X", "YZ"]), 1, 0, 0, 0);
    assert_eq!(shown(&placed), vec!["..", "X.", "YZ"]);
    assert_eq!((fx, fy), (2, 1));
    let (placed, fx, fy) = place_float_child(&placed, &map(&["Q"]), 5, 5, fx, fy);
    assert_eq!(shown(&placed), vec!["..", "X.", "YZ"]);
    assert_eq!((fx, fy), (5, 5));
    assert_eq!(size_float_child(4, 3, 9, 1, false, true), (4, 3));
    let (trimmed, w, h) = trim_float_contents(&map(&["ab", "cd", "ef"]), true, true, 1, 0);
    assert_eq!(shown(&trimmed), vec!["a", "c"]);
    assert_eq!((w, h), (2, 0));
}
