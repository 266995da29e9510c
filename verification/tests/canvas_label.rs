use ez_term::canvas::{canvas_from_text, get_canvas_auto_size};
use ez_term::label::{get_label_contents, Label, LabelState};
use ez_term::pixel::{Color, PixelMap};
use ez_term::scheduler::SchedulerFrontend;

fn shown(m: &PixelMap) -> Vec<String> {
    m.iter().map(|c| c.iter().map(|p| p.symbol.clone()).collect()).collect()
}

#[test]
fn canvas_shows_text_lines() {
    let m = canvas_from_text(&"ab\ncde".to_string(), 4, 3, Color::White, Color::Black);
    assert_eq!(shown(&m), vec!["ac ", "bd ", " e ", "   "]);
    assert_eq!(m[0][0].foreground_color, Color::White);
}

#[test]
fn canvas_reverses_characters_within_a_cluster() {
    let m = canvas_from_text(&"e\u{301}x".to_string(), 3, 1, Color::White, Color::Black);
    assert_eq!(shown(&m), vec!["\u{301}", "e", "x"]);
}

#[test]
fn canvas_drops_carriage_returns_before_line_breaks() {
    let m = canvas_from_text(&"a\r\nb".to_string(), 1, 2, Color::White, Color::Black);
    assert_eq!(shown(&m), vec!["ab"]);
}

#[test]
fn canvas_follows_its_text() {
    let text = "abc\nd".to_string();
    assert_eq!(get_canvas_auto_size(&text, true, true, false, false, 10, 10), (3, 2));
    assert_eq!(get_canvas_auto_size(&text, true, true, false, false, 2, 1), (2, 1));
    assert_eq!(get_canvas_auto_size(&text, true, false, true, false, 2, 1), (3, 1));
    assert_eq!(get_canvas_auto_size(&text, false, false, true, true, 7, 7), (7, 7));
}

#[test]
fn label_text_changes_mark_state() {
    let mut s = SchedulerFrontend::new();
    let label = Label::new("l".to_string(), "/root/l".to_string(), &mut s);
    let mut state: LabelState = label.state;
    state.set_text(String::new());
    assert!(!state.get_changed());
    state.set_text("hi".to_string());
    assert!(state.get_changed());
    state.set_changed(false);
    state.set_text("hi".to_string());
    assert!(!state.get_changed());
    assert_eq!(state.get_text(), "hi");
}

#[test]
fn label_wraps_and_fills_its_size() {
    let mut s = SchedulerFrontend::new();
    let mut state = LabelState::new("/root/l".to_string(), &mut s);
    state.set_text("ab cd".to_string());
    state.size.set_width(3);
    state.size.set_height(3);
    let m = get_label_contents(&mut state, Color::White, Color::Black).unwrap();
    assert_eq!(shown(&m), vec!["ac ", "bd ", "   "]);
    assert_eq!((state.size.get_width(), state.size.get_height()), (3, 3));
}

#[test]
fn label_shrinks_to_its_text() {
    let mut s = SchedulerFrontend::new();
    let mut state = LabelState::new("/root/l".to_string(), &mut s);
    state.set_text("hello".to_string());
    state.size.set_width(20);
    state.size.set_height(5);
    state.auto_scale.set_auto_scale_width(true);
    state.auto_scale.set_auto_scale_height(true);
    let m = get_label_contents(&mut state, Color::White, Color::Black).unwrap();
    assert_eq!(shown(&m), vec!["h", "e", "l", "l", "o"]);
    assert_eq!((state.size.get_width(), state.size.get_height()), (5, 1));
}

#[test]
fn label_with_border() {
    let mut s = SchedulerFrontend::new();
    let mut state = LabelState::new("/root/l".to_string(), &mut s);
    state.set_text("x".to_string());
    state.border_config.set_border(true);
    state.size.set_width(3);
    state.size.set_height(3);
    let m = get_label_contents(&mut state, Color::White, Color::Black).unwrap();
    assert_eq!(shown(&m), vec!["\u{250c}\u{2502}\u{2514}", "\u{2500}x\u{2500}", "\u{2510}\u{2502}\u{2518}"]);
}
