use ez_term::children::{split_path, Children};

#[test]
fn children_are_found_by_id() {
    let mut c: Children<u32> = Children::new();
    c.add_child("a".to_string(), 1);
    c.add_child("b".to_string(), 2);
    c.add_child("c".to_string(), 3);
    assert!(c.has_child(&"b".to_string()));
    assert!(!c.has_child(&"d".to_string()));
    assert_eq!(c.get_child(&"c".to_string()), Some(&3));
    assert_eq!(c.get_child(&"d".to_string()), None);
    assert_eq!(c.remove_child(&"b".to_string()), 2);
    assert_eq!(c.ids, vec!["a".to_string(), "c".to_string()]);
    assert_eq!(c.children, vec![1, 3]);
    assert!(!c.has_child(&"b".to_string()));
    assert_eq!(c.get_child(&"c".to_string()), Some(&3));
}

#[test]
fn paths_split_into_names() {
    assert_eq!(split_path(&"/root/layout/button".to_string(), &"root".to_string()),
        vec!["layout".to_string(), "button".to_string()]);
    assert_eq!(split_path(&"layout//button/".to_string(), &"root".to_string()),
        vec!["layout".to_string(), "button".to_string()]);
    assert_eq!(split_path(&"/root".to_string(), &"root".to_string()), Vec::<String>::new());
    assert_eq!(split_path(&"/a/root".to_string(), &"root".to_string()),
        vec!["a".to_string(), "root".to_string()]);
    assert_eq!(split_path(&"".to_string(), &"root".to_string()), Vec::<String>::new());
}
