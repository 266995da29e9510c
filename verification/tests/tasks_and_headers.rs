use ez_term::box_mode::{merge_box_column, merge_box_row};
use ez_term::button::Button;
use ez_term::canvas::reversed_graphemes;
use ez_term::children::new_tab_header;
use ez_term::definitions::{ColorConfig, HorizontalAlignment, VerticalAlignment};
use ez_term::events::run_task;
use ez_term::layout_state::LayoutState;
use ez_term::pixel::{Color, Pixel, PixelMap};
use ez_term::scheduler::{SchedulerFrontend, TaskAction};
use ez_term::text::apply_tag;
use ez_term::widgets::Checkbox;
use ez_term::wrap::take_pixels_for;

fn px(s: &str) -> Pixel {
    Pixel::new(s.to_string(), Color::White, Color::Black)
}

fn map(cols: &[&str]) -> PixelMap {
    cols.iter().map(|c| c.chars().map(|ch| px(&ch.to_string())).collect()).collect()
}

fn shown(m: &PixelMap) -> Vec<String> {
    m.iter().map(|c| c.iter().map(|p| p.symbol.clone()).collect()).collect()
}

#[test]
fn new_widgets_hold_fresh_states() {
    let mut s = SchedulerFrontend::new();
    let b = Button::new("b".to_string(), "/root/b".to_string(), &mut s);
    assert_eq!(b.state.colors.get_fg_color(), Color::White);
    assert_eq!(b.state.padding.get_padding_left(), 0);
    assert_eq!(b.state.border_config.get_horizontal_symbol(), "\u{2500}");
    assert_eq!(s.properties.len(), 40);
    assert_eq!(s.properties[0], "/root/b/x");
    let c = Checkbox::new("c".to_string(), "/root/c".to_string(), &mut s);
    assert_eq!(c.state.colors.get_selection_bg_color(), Color::Blue);
    assert_eq!(s.properties.len(), 81);
}

#[test]
fn running_the_flash_task_ends_the_flash() {
    let mut s = SchedulerFrontend::new();
    let b = Button::new("b".to_string(), "/root/b".to_string(), &mut s);
    let other = Button::new("o".to_string(), "/root/o".to_string(), &mut s);
    let pressed = Button { id: b.id.clone(), path: b.path.clone(), state: other.state.clone() };
    let mut states = vec![other.state, b.state];
    let press = Button { state: pressed.state, ..Button::new("b2".to_string(), "/root/b".to_string(), &mut s) };
    press.handle_on_press(&mut states[1], &mut s);
    assert!(states[1].get_flashing());
    let task = s.scheduled_tasks[0].action.clone();
    assert_eq!(run_task(&task, &mut states, &mut s), Some(1));
    assert!(!states[1].get_flashing());
    let mut none: Vec<ez_term::button::ButtonState> = Vec::new();
    assert_eq!(run_task(&TaskAction::EndFlash("/root/x".to_string()), &mut none, &mut s), None);
}

#[test]
fn modals_are_given_their_paths() {
    let mut s = SchedulerFrontend::new();
    let mut state: LayoutState<u32> = LayoutState::new("/root".to_string(), &mut s);
    state.open_modal(String::new(), 1, ());
    state.open_modal("pop".to_string(), 2, ());
    assert_eq!(state.open_modals.paths, vec!["/modal/0".to_string(), "/modal/pop".to_string()]);
    state.dismiss_modal();
    assert_eq!(state.open_modals.paths, vec!["/modal/pop".to_string()]);
}

#[test]
fn tags_apply_after_lowercasing() {
    let palette = vec![("red".to_string(), Color::Red)];
    let (mut b, mut u, mut i, mut st) = (false, false, false, false);
    let (mut c, mut bg) = (None, None);
    assert!(apply_tag(&"b".to_string(), false, &palette, &mut b, &mut u, &mut i, &mut st, &mut c, &mut bg));
    assert!(b);
    assert!(apply_tag(&"bg_color=red".to_string(), false, &palette, &mut b, &mut u, &mut i, &mut st, &mut c, &mut bg));
    assert_eq!(bg, Some(Color::Red));
    assert!(apply_tag(&"b".to_string(), true, &palette, &mut b, &mut u, &mut i, &mut st, &mut c, &mut bg));
    assert!(!b);
    assert!(!apply_tag(&"color=teal".to_string(), false, &palette, &mut b, &mut u, &mut i, &mut st, &mut c, &mut bg));
}

#[test]
fn graphemes_are_reversed_for_canvases() {
    let gs = vec!["ab".to_string(), "c".to_string()];
    assert_eq!(reversed_graphemes(&gs), vec!['b', 'a', 'c']);
    let pixels = vec![px("x"), px("a"), px("b")];
    let (taken, next) = take_pixels_for(&vec!["a".to_string(), "b".to_string()], &pixels, 0).unwrap();
    assert_eq!(taken.len(), 2);
    assert_eq!(taken[1].symbol, "b");
    assert_eq!(next, 3);
    assert!(take_pixels_for(&vec!["z".to_string()], &pixels, 0).is_none());
}

#[test]
fn box_children_merge_in_order() {
    let contents = vec![map(&["a", "b"]), map(&["c"])];
    let (m, ys) = merge_box_row(&contents, &vec![VerticalAlignment::Top, VerticalAlignment::Bottom],
        &vec![0, 0], 2, false, Color::White, Color::Black);
    assert_eq!(shown(&m), vec!["a", "b", " c"]);
    assert_eq!(ys, vec![0, 1]);
    let (m, xs) = merge_box_column(&contents, &vec![HorizontalAlignment::Left, HorizontalAlignment::Right],
        &vec![0, 0], &vec![false, false], 3, false, Color::White, Color::Black);
    assert_eq!(shown(&m), vec!["a ", "b ", " c"]);
    assert_eq!(xs, vec![0, 2]);
}

#[test]
fn tab_layouts_get_a_header_per_tab() {
    let mut s = SchedulerFrontend::new();
    let mut colors = ColorConfig::new("/root".to_string(), &mut s);
    colors.set_tab_fg_color(Color::Green);
    let header = new_tab_header(&"Settings".to_string(), &"/root/tabs".to_string(), &colors, &mut s);
    assert_eq!(header.id, "Settings_tab_header");
    assert_eq!(header.path, "/root/tabs/Settings_tab_header");
    assert_eq!(header.state.get_text(), "Settings");
    assert_eq!(header.state.colors.get_fg_color(), Color::Green);
    assert_eq!(header.state.colors.get_disabled_fg_color(), colors.get_active_fg_color());
}
