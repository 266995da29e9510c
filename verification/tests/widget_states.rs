use ez_term::button::{end_flash, Button, FLASH_DURATION_MS};
use ez_term::button_contents::get_button_contents;
use ez_term::checkbox::{handle_toggle, CheckboxState};
use ez_term::dropdown::{get_dropdown_contents, get_menu_contents, handle_down, handle_enter, handle_hover,
    handle_left_click, handle_up, open_menu, DropdownState};
use ez_term::pixel::{Color, Coordinates, PixelMap};
use ez_term::progress_bar::{get_progress_bar_contents, ProgressBar, ProgressBarState};
use ez_term::radio_button::{handle_press, RadioButtonState};
use ez_term::scheduler::{ScheduledTask, SchedulerFrontend, TaskAction};
use ez_term::slider::{handle_left, handle_right, snap_value_to_step, SliderError, SliderState};

fn shown(m: &PixelMap) -> Vec<String> {
    m.iter().map(|c| c.iter().map(|p| p.symbol.clone()).collect()).collect()
}

#[test]
fn checkbox_toggles_back_and_forth() {
    let mut s = SchedulerFrontend::new();
    let mut state = CheckboxState::new("/root/cb".to_string(), &mut s);
    assert!(!state.get_active());
    handle_toggle(&mut state, &mut s);
    assert!(state.get_active());
    handle_toggle(&mut state, &mut s);
    assert!(!state.get_active());
    assert_eq!(s.widgets_to_update, vec!["/root/cb".to_string(), "/root/cb".to_string()]);
}

#[test]
fn radio_press_deactivates_group() {
    let mut s = SchedulerFrontend::new();
    let mut a = RadioButtonState::new("/root/a".to_string(), &mut s);
    let mut b = RadioButtonState::new("/root/b".to_string(), &mut s);
    let mut c = RadioButtonState::new("/root/c".to_string(), &mut s);
    a.set_group("g".to_string());
    b.set_group("g".to_string());
    c.set_group("other".to_string());
    a.set_active(true);
    c.set_active(true);
    let mut states = vec![a, b, c];
    assert!(handle_press(&mut states, 1, &mut s));
    assert!(!states[0].get_active());
    assert!(states[1].get_active());
    assert!(states[2].get_active());
    assert!(!handle_press(&mut states, 1, &mut s));
    assert_eq!(s.widgets_to_update, vec!["/root/b".to_string()]);
}

#[test]
fn slider_validation_errors() {
    let mut s = SchedulerFrontend::new();
    let mut state = SliderState::new("/root/slider".to_string(), &mut s);
    assert_eq!(state.validate(), Ok(()));
    state.set_minimum(100);
    assert_eq!(state.validate(), Err(SliderError::MinimumNotBelowMaximum));
    state.set_minimum(0);
    state.set_step(0);
    assert_eq!(state.validate(), Err(SliderError::StepNotPositive));
    state.set_step(2);
    state.set_minimum(1);
    assert_eq!(state.validate(), Err(SliderError::MinimumNotMultipleOfStep));
    state.set_minimum(0);
    state.set_maximum(5);
    assert_eq!(state.validate(), Err(SliderError::MaximumNotMultipleOfStep));
    state.set_maximum(6);
    state.set_value(3);
    assert_eq!(state.validate(), Err(SliderError::ValueNotMultipleOfStep));
}

#[test]
fn slider_steps_and_bounds() {
    let mut s = SchedulerFrontend::new();
    let mut state = SliderState::new("/root/slider".to_string(), &mut s);
    state.set_step(10);
    state.set_value(50);
    assert!(handle_left(&mut state, &mut s));
    assert_eq!(state.get_value(), 40);
    assert!(handle_right(&mut state, &mut s));
    assert_eq!(state.get_value(), 50);
    state.set_value(0);
    assert!(!handle_left(&mut state, &mut s));
    assert_eq!(state.get_value(), 0);
    state.set_value(100);
    assert!(!handle_right(&mut state, &mut s));
    assert_eq!(state.get_value(), 100);
}

#[test]
fn slider_snaps_to_step() {
    assert_eq!(snap_value_to_step(7, 5, 100), 5);
    assert_eq!(snap_value_to_step(8, 5, 100), 10);
    assert_eq!(snap_value_to_step(10, 5, 100), 10);
    assert_eq!(snap_value_to_step(98, 5, 97), 97);
}

#[test]
fn progress_bar_value_stays_within_max() {
    let mut s = SchedulerFrontend::new();
    let bar = ProgressBar::new("bar".to_string(), "/root/bar".to_string(), &mut s);
    let mut state = bar.state;
    assert_eq!(state.get_value(), 0);
    assert_eq!(state.get_max(), 100);
    state.set_value(150);
    assert_eq!(state.get_value(), 100);
    state.set_max(50);
    assert_eq!(state.get_value(), 50);
    assert_eq!(state.get_max(), 50);
    state.set_value(20);
    state.set_max(80);
    assert_eq!(state.get_value(), 20);
}

#[test]
fn progress_bar_draws_filled_part() {
    let mut s = SchedulerFrontend::new();
    let mut state = ProgressBarState::new("/root/bar".to_string(), &mut s);
    state.size.set_width(5);
    let m = get_progress_bar_contents(&mut state, 2, Color::White, Color::Black);
    assert_eq!(state.size.get_height(), 1);
    assert_eq!(shown(&m), vec!["\u{2588}", "\u{2588}", "\u{2588}", "\u{2591}", "\u{2591}"]);
    let m = get_progress_bar_contents(&mut state, 0, Color::White, Color::Black);
    assert_eq!(shown(&m), vec!["\u{2591}"; 5]);
}

#[test]
fn button_press_flashes_and_schedules_end() {
    let mut s = SchedulerFrontend::new();
    let button = Button::new("ok".to_string(), "/root/ok".to_string(), &mut s);
    let mut state = ButtonState_of(&button);
    button.handle_on_press(&mut state, &mut s);
    assert!(state.get_flashing());
    assert_eq!(s.widgets_to_update, vec!["/root/ok".to_string()]);
    assert_eq!(s.scheduled_tasks, vec![ScheduledTask { name: "/root/ok".to_string(), delay_ms: FLASH_DURATION_MS,
        action: TaskAction::EndFlash("/root/ok".to_string()) }]);
    end_flash(&mut state, &mut s);
    assert!(!state.get_flashing());
    assert!(state.get_changed());
}

#[allow(non_snake_case)]
fn ButtonState_of(button: &Button) -> ez_term::button::ButtonState {
    button.state.clone()
}

#[test]
fn button_text_and_colors() {
    let mut s = SchedulerFrontend::new();
    let button = Button::new("ok".to_string(), "/root/ok".to_string(), &mut s);
    let mut state = button.state;
    state.set_text("go".to_string());
    assert_eq!(state.get_text(), "go");
    assert!(state.get_changed());
    state.set_changed(false);
    state.set_flashing(true);
    assert_eq!(state.get_draw_colors(), (Color::White, Color::White));
    assert!(state.get_changed());
}

#[test]
fn button_contents_are_centered_and_framed() {
    let mut s = SchedulerFrontend::new();
    let button = Button::new("ok".to_string(), "/root/ok".to_string(), &mut s);
    let mut state = button.state;
    state.set_text("ok".to_string());
    state.size.set_width(4);
    state.size.set_height(1);
    let m = get_button_contents(&mut state, &Vec::new(), Color::White, Color::Black).unwrap();
    assert_eq!(shown(&m), vec!["\u{250c}\u{2502}\u{2514}", "\u{2500} \u{2500}", "\u{2500}o\u{2500}",
        "\u{2500}k\u{2500}", "\u{2500} \u{2500}", "\u{2510}\u{2502}\u{2518}"]);
}

#[test]
fn button_follows_its_content() {
    let mut s = SchedulerFrontend::new();
    let button = Button::new("ok".to_string(), "/root/ok".to_string(), &mut s);
    let mut state = button.state;
    state.set_text("[b]yes".to_string());
    state.auto_scale.set_auto_scale_width(true);
    state.auto_scale.set_auto_scale_height(true);
    let m = get_button_contents(&mut state, &Vec::new(), Color::White, Color::Black).unwrap();
    assert_eq!(state.size.get_width(), 3);
    assert_eq!(state.size.get_height(), 1);
    assert_eq!(m.len(), 5);
    assert!(m[1][1].bold);
    assert!(get_button_contents(&mut state, &Vec::new(), Color::White, Color::Black).is_some());
    state.set_text("[color=teal]x".to_string());
    assert!(get_button_contents(&mut state, &Vec::new(), Color::White, Color::Black).is_none());
}

fn dropdown(s: &mut SchedulerFrontend) -> DropdownState {
    let mut d = DropdownState::new("/root/dd".to_string(), s);
    d.set_options(vec!["a".to_string(), "b".to_string(), "c".to_string()]);
    d.size.set_width(3);
    d
}

#[test]
fn dropdown_menu_orders_options() {
    let mut s = SchedulerFrontend::new();
    let mut d = dropdown(&mut s);
    assert_eq!(d.total_options(), 4);
    let menu = open_menu(&mut d, "/root/modal".to_string(), 1, 2, &mut s);
    assert!(d.get_disabled());
    assert_eq!(menu.parent_path, "/root/dd");
    assert_eq!(menu.size.get_height(), 6);
    assert_eq!(menu.get_dropped_down_options(), vec!["", "a", "b", "c"]);
    d.set_choice("b".to_string());
    let menu = open_menu(&mut d, "/root/modal".to_string(), 1, 2, &mut s);
    assert_eq!(menu.get_dropped_down_options(), vec!["b", "", "a", "c"]);
    d.set_allow_none(false);
    let menu = open_menu(&mut d, "/root/modal".to_string(), 1, 2, &mut s);
    assert_eq!(menu.get_dropped_down_options(), vec!["b", "a", "c"]);
}

#[test]
fn dropdown_highlight_wraps_around() {
    let mut s = SchedulerFrontend::new();
    let mut d = dropdown(&mut s);
    let mut menu = open_menu(&mut d, "/root/modal".to_string(), 0, 0, &mut s);
    handle_up(&mut menu);
    assert_eq!(menu.get_dropped_down_selected_row(), 3);
    handle_down(&mut menu);
    assert_eq!(menu.get_dropped_down_selected_row(), 0);
    handle_down(&mut menu);
    handle_up(&mut menu);
    assert_eq!(menu.get_dropped_down_selected_row(), 0);
}

#[test]
fn dropdown_hover_enter_and_click() {
    let mut s = SchedulerFrontend::new();
    let mut d = dropdown(&mut s);
    let mut menu = open_menu(&mut d, "/root/modal".to_string(), 0, 0, &mut s);
    assert!(handle_hover(&mut menu, Coordinates::new(0, 2)));
    assert_eq!(menu.get_dropped_down_selected_row(), 1);
    assert!(!handle_hover(&mut menu, Coordinates::new(0, 2)));
    assert!(!handle_hover(&mut menu, Coordinates::new(0, 9)));
    handle_enter(&menu, &mut d);
    assert_eq!(d.get_choice(), "a");
    assert!(handle_left_click(&menu, &mut d, Coordinates::new(0, 3), true));
    assert_eq!(d.get_choice(), "b");
    assert!(!d.get_disabled());
    d.set_disabled(true);
    assert!(!handle_left_click(&menu, &mut d, Coordinates::new(9, 9), false));
    assert_eq!(d.get_choice(), "b");
    assert!(!d.get_disabled());
}

#[test]
fn dropdown_drawing() {
    let mut s = SchedulerFrontend::new();
    let mut d = dropdown(&mut s);
    let menu = open_menu(&mut d, "/root/modal".to_string(), 0, 0, &mut s);
    let m = get_menu_contents(&menu);
    assert_eq!(m.len(), 5);
    assert_eq!(shown(&m)[1], "\u{2500} abc\u{2500}");
    assert_eq!(m[1][1].foreground_color, Color::Yellow);
    assert_eq!(m[1][2].foreground_color, Color::White);
    d.set_allow_none(false);
    d.set_choice(String::new());
    let m = get_dropdown_contents(&mut d);
    assert_eq!(d.get_choice(), "a");
    assert_eq!(shown(&m)[1], "\u{2500}a\u{2500}");
    assert_eq!(d.size.get_height(), 1);
}
