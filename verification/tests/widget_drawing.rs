use ez_term::checkbox::CheckboxState;
use ez_term::pixel::{Color, PixelMap};
use ez_term::radio_button::RadioButtonState;
use ez_term::scheduler::SchedulerFrontend;
use ez_term::slider::SliderState;
use ez_term::text_input::TextInputState;
use ez_term::widget_contents::{get_checkbox_contents, get_radio_button_contents, get_slider_contents,
    get_text_input_contents};

fn shown(m: &PixelMap) -> Vec<String> {
    m.iter().map(|c| c.iter().map(|p| p.symbol.clone()).collect()).collect()
}

#[test]
fn checkbox_shows_its_symbol_in_brackets() {
    let mut s = SchedulerFrontend::new();
    let mut state = CheckboxState::new("/root/check".to_string(), &mut s);
    let c = get_checkbox_contents(&mut state, &"X".to_string(), &"-".to_string());
    assert_eq!(shown(&c), vec!["[", " ", "-", " ", "]"]);
    assert_eq!((state.size.get_width(), state.size.get_height()), (5, 1));
    state.set_active(true);
    let c = get_checkbox_contents(&mut state, &"X".to_string(), &"-".to_string());
    assert_eq!(shown(&c), vec!["[", " ", "X", " ", "]"]);
    assert_eq!(c[2][0].foreground_color, state.colors.get_fg_color());
    state.padding.set_padding_left(1);
    let c = get_checkbox_contents(&mut state, &"X".to_string(), &"-".to_string());
    assert_eq!(shown(&c), vec![" ", "[", " ", "X", " ", "]"]);
}

#[test]
fn radio_button_shows_its_symbol_in_parentheses() {
    let mut s = SchedulerFrontend::new();
    let mut state = RadioButtonState::new("/root/radio".to_string(), &mut s);
    state.set_disabled(true);
    let c = get_radio_button_contents(&mut state, &"o".to_string(), &" ".to_string(), Color::White, Color::Black);
    assert_eq!(shown(&c), vec!["(", " ", " ", " ", ")"]);
    assert_eq!(c[0][0].foreground_color, state.colors.get_disabled_fg_color());
}

#[test]
fn slider_draws_a_line_with_a_knob() {
    let mut s = SchedulerFrontend::new();
    let mut state = SliderState::new("/root/slider".to_string(), &mut s);
    assert!(get_slider_contents(&mut state, 0, Color::White, Color::Black).is_empty());
    state.size.set_width(5);
    state.set_value(200);
    let c = get_slider_contents(&mut state, 2, Color::White, Color::Black);
    assert_eq!(shown(&c), vec!["\u{2501}", "\u{2501}", "\u{1FB9A}", "\u{2501}", "\u{2501}"]);
    assert_eq!(state.get_value(), 100);
    assert_eq!(state.size.get_height(), 1);
    state.set_maximum(6);
    state.set_step(2);
    state.auto_scale.set_auto_scale_width(true);
    let c = get_slider_contents(&mut state, 3, Color::White, Color::Black);
    assert_eq!(c.len(), 4);
    assert_eq!(state.size.get_width(), 4);
    assert_eq!(state.get_value(), 6);
}

#[test]
fn text_input_shows_the_text_in_view() {
    let mut s = SchedulerFrontend::new();
    let mut state = TextInputState::new("/root/input".to_string(), &mut s);
    state.border_config.set_border(false);
    state.size.set_width(6);
    state.size.set_height(1);
    state.set_text("abc".to_string());
    let c = get_text_input_contents(&mut state, Color::White, Color::Black);
    assert_eq!(shown(&c), vec!["a", "b", "c", " ", " ", " "]);
    assert!(c[0][0].underline);
    state.set_text("abcdefghij".to_string());
    state.set_view_start(2);
    let c = get_text_input_contents(&mut state, Color::White, Color::Black);
    assert_eq!(shown(&c), vec!["c", "d", "e", "f", "g", " "]);
    state.set_blink_switch(true);
    state.set_cursor_x(1);
    let c = get_text_input_contents(&mut state, Color::White, Color::Black);
    assert_eq!(c[1][0].background_color, state.colors.get_cursor_color());
}
