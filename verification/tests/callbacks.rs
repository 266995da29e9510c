use ez_term::callbacks::CallbackConfig;
use ez_term::keys::{KeyCode, KeyMap, CONTROL};

type Config = CallbackConfig<u32, u8, u16, i32, i64>;

#[test]
fn new_config_has_no_callbacks() {
    let config = Config::new();
    assert!(config.on_select.is_none());
    assert!(config.on_value_change.is_none());
    assert!(config.keymap.keymap.is_empty());
    assert!(config.property_callbacks.is_empty());
    let config: Config = Default::default();
    assert!(config.on_drag.is_none());
}

#[test]
fn configs_from_one_callback_hold_only_it() {
    let config = Config::from_on_press(3);
    assert_eq!(config.on_press, Some(3));
    assert!(config.on_select.is_none() && config.on_deselect.is_none() && config.on_hover.is_none());
    assert_eq!(Config::from_on_select(4).on_select, Some(4));
    assert_eq!(Config::from_on_deselect(5).on_deselect, Some(5));
    assert_eq!(Config::from_on_keyboard_enter(6).on_keyboard_enter, Some(6));
    assert_eq!(Config::from_on_left_mouse_click(7).on_left_mouse_click, Some(7));
    assert_eq!(Config::from_on_right_mouse_click(8).on_right_mouse_click, Some(8));
    assert_eq!(Config::from_on_scroll_up(9).on_scroll_up, Some(9));
    assert_eq!(Config::from_on_scroll_down(10).on_scroll_down, Some(10));
    assert_eq!(Config::from_on_value_change(11).on_value_change, Some(11));
    assert_eq!(Config::from_on_hover(12).on_hover, Some(12));
    assert_eq!(Config::from_on_drag(-1).on_drag, Some(-1));
    let mut map: KeyMap<i64> = KeyMap::new();
    map.bind_key(KeyCode::Char('q'), None, 42);
    let config = Config::from_keymap(map);
    assert_eq!(config.keymap.get(KeyCode::Char('q'), 0), Some(&42));
    assert!(config.on_press.is_none());
}

#[test]
fn update_from_keeps_callbacks_the_other_lacks() {
    let mut config = Config::from_on_press(1);
    config.on_select = Some(2);
    config.property_callbacks.push(99);
    config.bind_key(KeyCode::Char('a'), None, 10);
    config.bind_key(KeyCode::Char('b'), None, 20);
    let mut other = Config::from_on_press(3);
    other.on_hover = Some(4);
    other.property_callbacks.push(100);
    other.bind_key(KeyCode::Char('b'), None, 30);
    other.bind_key(KeyCode::Char('c'), Some(vec![CONTROL]), 40);
    config.update_from(other);
    assert_eq!(config.on_press, Some(3));
    assert_eq!(config.on_select, Some(2));
    assert_eq!(config.on_hover, Some(4));
    assert!(config.on_drag.is_none());
    assert_eq!(config.property_callbacks, vec![99]);
    assert_eq!(config.keymap.keymap.len(), 3);
    assert_eq!(config.keymap.get(KeyCode::Char('a'), 0), Some(&10));
    assert_eq!(config.keymap.get(KeyCode::Char('b'), 0), Some(&30));
    assert!(config.keymap.get(KeyCode::Char('c'), 0).is_none());
    assert!(config.keymap.contains(KeyCode::Char('c'), CONTROL));
}

#[test]
fn keymaps_extend_with_the_others_bindings() {
    let mut a: KeyMap<u8> = KeyMap::new();
    a.bind_key(KeyCode::Enter, None, 1);
    let mut b: KeyMap<u8> = KeyMap::new();
    b.bind_key(KeyCode::Enter, None, 2);
    b.bind_key(KeyCode::Backspace, None, 3);
    a.extend(b);
    assert_eq!(a.get(KeyCode::Enter, 0), Some(&2));
    assert_eq!(a.get(KeyCode::Backspace, 0), Some(&3));
}
