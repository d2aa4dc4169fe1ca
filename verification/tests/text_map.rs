use floci_ui::service_management::text_map::{insert_attr, TextMap};
use floci_ui::text::{split_once_text, take_chars_text, trim_text, upper_text_exec};

#[test]
fn a_read_gives_back_the_last_write() {
    let mut map = TextMap::new();
    map.insert("a".to_owned(), 1);
    map.insert("b".to_owned(), 2);
    map.insert("a".to_owned(), 3);
    assert_eq!(map.get("a"), Some(&3));
    assert_eq!(map.get("b"), Some(&2));
    assert_eq!(map.get("c"), None);
    assert_eq!(map.len(), 2);
    assert!(map.contains_key("b"));
}

#[test]
fn missing_attributes_are_not_inserted() {
    let mut map = TextMap::new();
    insert_attr(&mut map, "runtime", None);
    insert_attr(&mut map, "handler", Some("bootstrap".to_owned()));
    assert_eq!(map.len(), 1);
    assert_eq!(map.get("handler").map(String::as_str), Some("bootstrap"));
}

#[test]
fn text_helpers_follow_std() {
    assert_eq!(trim_text("\u{3000} a b \n"), "a b");
    assert_eq!(upper_text_exec("post é"), "POST é");
    assert_eq!(take_chars_text("héllo", 2), "hé");
    assert_eq!(split_once_text("a||b||c", "||"), Some(("a".to_owned(), "b||c".to_owned())));
    assert_eq!(split_once_text("abc", "||"), None);
}
