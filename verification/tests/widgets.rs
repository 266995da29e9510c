use ez_term::dropdown::open_menu;
use ez_term::scheduler::SchedulerFrontend;
use ez_term::widgets::{Checkbox, Dropdown, DroppedDownMenu, RadioButton, Slider, TextInput};

#[test]
fn widgets_start_with_fresh_states() {
    let mut s = SchedulerFrontend::new();
    let c = Checkbox::new("c".to_string(), "/root/c".to_string(), &mut s);
    assert_eq!((c.id.as_str(), c.state.path.as_str()), ("c", "/root/c"));
    assert!(!c.state.get_active());
    let r = RadioButton::new("r".to_string(), "/root/r".to_string(), &mut s);
    assert!(!r.state.get_active());
    let sl = Slider::new("s".to_string(), "/root/s".to_string(), &mut s);
    assert_eq!(sl.state.get_value(), 0);
    let t = TextInput::new("t".to_string(), "/root/t".to_string(), &mut s);
    assert_eq!(t.state.get_text(), "");
    let mut d = Dropdown::new("d".to_string(), "/root/d".to_string(), &mut s);
    d.state.set_options(vec!["x".to_string()]);
    let menu_state = open_menu(&mut d.state, "/modal/dropdown".to_string(), 0, 0, &mut s);
    let m = DroppedDownMenu::new("dropdown".to_string(), "/modal/dropdown".to_string(), menu_state);
    assert_eq!(m.state.parent_path, "/root/d");
}
