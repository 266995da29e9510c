use ez_term::dropdown::{open_menu, DropdownState};
use ez_term::events::{cursor_blink_tick, menu_key, select_text_input, slider_key, text_input_key, KeyOutcome};
use ez_term::pixel::Coordinates;
use ez_term::keys::{create_keymap_modifiers, get_alternative_key, key_number_of, KeyCode, KeyMap, ALT, CONTROL,
    NONE, SHIFT};
use ez_term::scheduler::SchedulerFrontend;
use ez_term::slider::SliderState;
use ez_term::text_input::TextInputState;

#[test]
fn modifiers_combine_into_flags() {
    assert_eq!(create_keymap_modifiers(None), NONE);
    assert_eq!(create_keymap_modifiers(Some(vec![])), NONE);
    assert_eq!(create_keymap_modifiers(Some(vec![CONTROL, SHIFT])), 3);
    assert_eq!(create_keymap_modifiers(Some(vec![ALT, ALT])), 4);
    assert_eq!(create_keymap_modifiers(Some(vec![SHIFT, ALT, CONTROL])), 7);
}

#[test]
fn keys_have_distinct_numbers() {
    assert_eq!(key_number_of(KeyCode::Char('a')), 97);
    assert_ne!(key_number_of(KeyCode::F(1)), key_number_of(KeyCode::Media(1)));
    assert_ne!(key_number_of(KeyCode::Enter), key_number_of(KeyCode::Esc));
}

#[test]
fn letters_look_up_the_other_case() {
    assert_eq!(get_alternative_key(KeyCode::Char('a')), Some(KeyCode::Char('A')));
    assert_eq!(get_alternative_key(KeyCode::Char('Q')), Some(KeyCode::Char('q')));
    assert_eq!(get_alternative_key(KeyCode::Char('1')), None);
    assert_eq!(get_alternative_key(KeyCode::Enter), None);
}

#[test]
fn bound_keys_are_found_in_either_case() {
    let mut map: KeyMap<u32> = KeyMap::new();
    assert!(!map.contains(KeyCode::Char('a'), NONE));
    map.bind_key(KeyCode::Char('a'), None, 7);
    assert!(map.contains(KeyCode::Char('a'), NONE));
    assert!(map.contains(KeyCode::Char('A'), NONE));
    assert!(!map.contains(KeyCode::Char('a'), CONTROL));
    assert_eq!(map.get(KeyCode::Char('A'), NONE), Some(&7));
    map.bind_key(KeyCode::Char('A'), None, 8);
    assert_eq!(map.get(KeyCode::Char('A'), NONE), Some(&8));
    assert_eq!(map.get(KeyCode::Char('a'), NONE), Some(&7));
    map.bind_key(KeyCode::Char('1'), Some(vec![CONTROL]), 9);
    assert!(map.contains(KeyCode::Char('1'), CONTROL));
    assert!(!map.contains(KeyCode::Char('1'), NONE));
    map.bind_key(KeyCode::Char('a'), None, 10);
    assert_eq!(map.get(KeyCode::Char('a'), NONE), Some(&10));
    assert_eq!(map.get(KeyCode::Enter, NONE), None);
}

#[test]
fn text_input_takes_editing_keys() {
    let mut s = SchedulerFrontend::new();
    let mut state = TextInputState::new("/root/input".to_string(), &mut s);
    state.border_config.set_border(false);
    state.size.set_width(6);
    state.set_max_length(10);
    assert_eq!(text_input_key(&mut state, KeyCode::Char('a'), &mut s), KeyOutcome::Handled { value_changed: true });
    assert_eq!(text_input_key(&mut state, KeyCode::Char('b'), &mut s), KeyOutcome::Handled { value_changed: true });
    assert_eq!(state.get_text(), "ab");
    assert_eq!(text_input_key(&mut state, KeyCode::Left, &mut s), KeyOutcome::Handled { value_changed: false });
    assert_eq!(state.get_cursor_pos().x, 1);
    assert_eq!(text_input_key(&mut state, KeyCode::Backspace, &mut s), KeyOutcome::Handled { value_changed: true });
    assert_eq!(state.get_text(), "b");
    assert_eq!(text_input_key(&mut state, KeyCode::Backspace, &mut s), KeyOutcome::Handled { value_changed: false });
    assert_eq!(text_input_key(&mut state, KeyCode::Enter, &mut s), KeyOutcome::Ignored);
    assert_eq!(state.get_text(), "b");
}

#[test]
fn slider_takes_arrows_and_bound_keys() {
    let mut s = SchedulerFrontend::new();
    let mut state = SliderState::new("/root/slider".to_string(), &mut s);
    state.set_step(10);
    state.set_value(50);
    let mut map: KeyMap<u32> = KeyMap::new();
    map.bind_key(KeyCode::Char('x'), None, 1);
    assert_eq!(slider_key(&mut state, KeyCode::Left, NONE, &map, &mut s), KeyOutcome::Handled { value_changed: true });
    assert_eq!(state.get_value(), 40);
    assert_eq!(slider_key(&mut state, KeyCode::Right, NONE, &map, &mut s), KeyOutcome::Handled { value_changed: true });
    assert_eq!(state.get_value(), 50);
    assert_eq!(slider_key(&mut state, KeyCode::Char('X'), NONE, &map, &mut s), KeyOutcome::Bound);
    assert_eq!(slider_key(&mut state, KeyCode::Char('y'), NONE, &map, &mut s), KeyOutcome::Ignored);
    state.set_value(0);
    assert_eq!(slider_key(&mut state, KeyCode::Left, NONE, &map, &mut s), KeyOutcome::Handled { value_changed: false });
}

#[test]
fn menu_moves_selection_and_chooses() {
    let mut s = SchedulerFrontend::new();
    let mut d = DropdownState::new("/root/dd".to_string(), &mut s);
    d.set_options(vec!["a".to_string(), "b".to_string()]);
    let mut menu = open_menu(&mut d, "/root/modal".to_string(), 0, 0, &mut s);
    assert_eq!(menu_key(&mut menu, &mut d, KeyCode::Down), KeyOutcome::Handled { value_changed: false });
    assert_eq!(menu.get_dropped_down_selected_row(), 1);
    assert_eq!(menu_key(&mut menu, &mut d, KeyCode::Enter), KeyOutcome::Handled { value_changed: true });
    assert_eq!(d.get_choice(), "a");
    assert_eq!(menu_key(&mut menu, &mut d, KeyCode::Up), KeyOutcome::Handled { value_changed: false });
    assert_eq!(menu.get_dropped_down_selected_row(), 0);
    assert_eq!(menu_key(&mut menu, &mut d, KeyCode::Tab), KeyOutcome::Ignored);
}

#[test]
fn selecting_a_text_input_places_the_cursor() {
    let mut s = SchedulerFrontend::new();
    let mut state = TextInputState::new("/root/input".to_string(), &mut s);
    state.border_config.set_border(false);
    state.size.set_width(6);
    state.set_text("abc".to_string());
    assert!(select_text_input(&mut state, Some(Coordinates::new(5, 0)), &mut s));
    assert!(state.selected);
    assert_eq!(state.get_cursor_pos().x, 3);
    assert!(state.get_active_blink_task());
    assert!(!select_text_input(&mut state, Some(Coordinates::new(1, 0)), &mut s));
    assert_eq!(state.get_cursor_pos().x, 1);
    assert!(state.get_blink_switch());
    state.set_text("abcdefgh".to_string());
    assert!(select_text_input(&mut state, None, &mut s));
    assert_eq!(state.get_cursor_pos().x, 5);
}

#[test]
fn cursor_blinks_every_fourth_tick_while_selected() {
    let mut s = SchedulerFrontend::new();
    let mut state = TextInputState::new("/root/input".to_string(), &mut s);
    state.selected = true;
    let mut counter = 3;
    assert!(cursor_blink_tick(&mut state, &mut counter, &mut s));
    assert!(state.get_blink_switch());
    assert_eq!(counter, 0);
    for _ in 0..3 {
        assert!(cursor_blink_tick(&mut state, &mut counter, &mut s));
        assert!(state.get_blink_switch());
    }
    assert!(cursor_blink_tick(&mut state, &mut counter, &mut s));
    assert!(!state.get_blink_switch());
    state.set_blink_switch(true);
    state.selected = false;
    assert!(!cursor_blink_tick(&mut state, &mut counter, &mut s));
    assert!(!state.get_blink_switch());
    assert!(!state.get_active_blink_task());
}
