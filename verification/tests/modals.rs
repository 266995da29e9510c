use ez_term::modals::{decimal_string, Modals};

#[test]
fn numbers_are_written_in_decimal() {
    assert_eq!(decimal_string(0), "0");
    assert_eq!(decimal_string(7), "7");
    assert_eq!(decimal_string(10), "10");
    assert_eq!(decimal_string(4096), "4096");
}

#[test]
fn modals_open_with_paths_and_close_first_in_first_out() {
    let mut m: Modals<u32> = Modals::new();
    assert!(!m.has_modal());
    let (path, states) = m.open_modal(String::new(), 1, 10u8);
    assert_eq!(path, "/modal/0");
    assert_eq!(states, vec![("/modal/0".to_string(), 10u8)]);
    assert_eq!(m.open_modal("popup".to_string(), 2, 20u8).0, "/modal/popup");
    assert_eq!(m.open_modal(String::new(), 3, 30u8).1, vec![("/modal/2".to_string(), 30u8)]);
    assert_eq!(*m.get_modal(), 1);
    assert_eq!(m.dismiss_modal(), 1);
    assert_eq!(*m.get_modal(), 2);
    assert_eq!(m.ids, vec!["popup".to_string(), "2".to_string()]);
    m.dismiss_all_modals();
    assert!(!m.has_modal());
}
