use ez_term::definitions::{LayoutMode, LayoutOrientation};
use ez_term::layout_state::{LayoutState, ScrollingConfig};
use ez_term::scheduler::SchedulerFrontend;

#[test]
fn new_layout_is_a_horizontal_box() {
    let mut s = SchedulerFrontend::new();
    let state: LayoutState<u32> = LayoutState::new("/root".to_string(), &mut s);
    assert_eq!(state.get_mode(), LayoutMode::Box);
    assert_eq!(state.get_orientation(), LayoutOrientation::Horizontal);
    assert_eq!(state.tab_name, "Tab");
    assert!(!state.has_modal());
    assert!(!state.changed);
}

#[test]
fn scrollbars_take_a_line_from_the_content() {
    let mut s = SchedulerFrontend::new();
    let mut state: LayoutState<u32> = LayoutState::new("/root".to_string(), &mut s);
    state.size.set_width(10);
    state.size.set_height(6);
    assert_eq!(state.get_effective_size().width, 10);
    state.scrolling_config.set_scroll_y(true);
    assert_eq!(state.get_effective_size().width, 9);
    assert_eq!(state.get_effective_size().height, 6);
    state.border_config.set_border(true);
    state.scrolling_config.set_scroll_x(true);
    assert_eq!(state.get_effective_size().height, 3);
    state.set_effective_width(4);
    assert_eq!(state.size.get_width(), 7);
    state.set_effective_height(1);
    assert_eq!(state.size.get_height(), 4);
    assert_eq!(state.get_effective_size().width, 4);
}

#[test]
fn setting_a_different_tab_marks_the_layout_changed() {
    let mut s = SchedulerFrontend::new();
    let mut state: LayoutState<u32> = LayoutState::new("/root".to_string(), &mut s);
    state.set_active_tab(String::new());
    assert!(!state.changed);
    state.set_active_tab("tab_a".to_string());
    assert!(state.changed);
    assert_eq!(state.get_active_tab(), "tab_a");
    state.changed = false;
    state.set_selected_tab_header("tab_a_tab_header".to_string());
    assert!(state.changed);
    state.set_mode(LayoutMode::Tab);
    assert_eq!(state.get_mode(), LayoutMode::Tab);
}

#[test]
fn layout_modals_redraw_the_screen_when_dismissed() {
    let mut s = SchedulerFrontend::new();
    let mut state: LayoutState<u32> = LayoutState::new("/root".to_string(), &mut s);
    let (path, states) = state.open_modal(String::new(), 5, "shown".to_string());
    assert_eq!(path, "/modal/0");
    assert_eq!(states, vec![("/modal/0".to_string(), "shown".to_string())]);
    assert!(state.changed);
    assert!(!state.force_redraw);
    assert_eq!(state.get_modals(), &vec![5]);
    assert_eq!(state.dismiss_modal(), 5);
    assert!(state.force_redraw);
    state.open_modal("a".to_string(), 6, ());
    state.open_modal("b".to_string(), 7, ());
    state.dismiss_all_modals();
    assert!(!state.has_modal());
}

#[test]
fn view_can_start_up_to_the_content_left_over() {
    let mut s = SchedulerFrontend::new();
    let mut config = ScrollingConfig::new(true, false, "/root".to_string(), &mut s);
    config.set_original_width(30);
    config.set_original_height(8);
    assert_eq!(config.get_max_view_start_x(10), 20);
    assert_eq!(config.get_max_view_start_y(8), 0);
    assert!(config.get_scroll_x());
    assert!(!config.get_is_scrolling_x());
}
