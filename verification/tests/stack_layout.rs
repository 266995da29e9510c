use ez_term::definitions::{ColorConfig, LayoutOrientation};
use ez_term::pixel::{Color, Coordinates, Pixel, PixelMap};
use ez_term::scheduler::SchedulerFrontend;
use ez_term::stack_mode::get_stack_mode_contents;

fn px(s: &str) -> Pixel {
    Pixel::new(s.to_string(), Color::White, Color::Black)
}

fn map(cols: &[&str]) -> PixelMap {
    cols.iter().map(|c| c.chars().map(|ch| px(&ch.to_string())).collect()).collect()
}

fn shown(m: &PixelMap) -> Vec<String> {
    m.iter().map(|c| c.iter().map(|p| p.symbol.clone()).collect()).collect()
}

fn places(v: &Vec<Coordinates>) -> Vec<(usize, usize)> {
    v.iter().map(|c| (c.x, c.y)).collect()
}

fn colors() -> ColorConfig {
    let mut s = SchedulerFrontend::new();
    ColorConfig::new("/root/stack".to_string(), &mut s)
}

#[test]
fn rows_fill_left_to_right_then_wrap_below() {
    let children = vec![map(&["a", "b"]), map(&["cc", "dd"]), map(&["e"])];
    let (content, positions) = get_stack_mode_contents(LayoutOrientation::LeftRightTopBottom, &children, 4, 3,
        &colors(), true, &".".to_string(), false, false);
    assert_eq!(shown(&content), vec!["a.e", "b..", "cc.", "dd."]);
    assert_eq!(places(&positions), vec![(0, 0), (2, 0), (0, 2)]);
}

#[test]
fn rows_shrink_to_what_was_written() {
    let children = vec![map(&["a", "b"]), map(&["cc", "dd"])];
    let (content, positions) = get_stack_mode_contents(LayoutOrientation::LeftRightTopBottom, &children, 4, 3,
        &colors(), true, &".".to_string(), true, true);
    assert_eq!(shown(&content), vec!["a.", "b.", "cc", "dd"]);
    assert_eq!(places(&positions), vec![(0, 0), (2, 0)]);
}

#[test]
fn child_wider_than_layout_stops_stacking() {
    let children = vec![map(&["a", "b", "c", "d"]), map(&["e"])];
    let (content, positions) = get_stack_mode_contents(LayoutOrientation::LeftRightTopBottom, &children, 2, 2,
        &colors(), true, &".".to_string(), false, false);
    assert_eq!(shown(&content), vec!["..", ".."]);
    assert!(positions.is_empty());
}

#[test]
fn columns_fill_top_to_bottom_then_move_right() {
    let children = vec![map(&["ab"]), map(&["c"]), map(&["de", "fg"])];
    let (content, positions) = get_stack_mode_contents(LayoutOrientation::TopBottomLeftRight, &children, 3, 3,
        &colors(), false, &".".to_string(), false, false);
    assert_eq!(shown(&content), vec!["abc", "de ", "fg "]);
    assert_eq!(places(&positions), vec![(0, 0), (0, 2), (1, 0)]);
}
