use auto_switch::node_map::{NodeMap, NodeSet};
use auto_switch::text::{chars_of, is_blank, same_text};

#[test]
fn a_map_keeps_the_last_value_of_each_id() {
    let mut map: NodeMap<u32> = NodeMap::new();
    assert_eq!(map.get("a"), None);
    map.insert("a".to_string(), 1);
    map.insert("b".to_string(), 2);
    map.insert("a".to_string(), 3);
    assert_eq!(map.get("a"), Some(&3));
    assert_eq!(map.get("b"), Some(&2));
    assert_eq!(map.get(""), None);
    assert_eq!(map.get("ab"), None);
}

#[test]
fn a_set_holds_what_was_put_in() {
    let mut set = NodeSet::new();
    assert!(!set.contains("a"));
    set.insert("a".to_string());
    set.insert("a".to_string());
    set.insert("节点".to_string());
    assert!(set.contains("a"));
    assert!(set.contains("节点"));
    assert!(!set.contains("节"));
}

#[test]
fn texts_are_the_same_character_by_character() {
    assert!(same_text("", ""));
    assert!(same_text("节点-1", "节点-1"));
    assert!(!same_text("a", "ab"));
    assert!(!same_text("ab", "a"));
    assert!(!same_text("ab", "aB"));
    assert_eq!(chars_of("é节x"), vec!['é', '节', 'x']);
}

#[test]
fn blank_texts_hold_white_space_only() {
    assert!(is_blank(""));
    assert!(is_blank(" \t\r\n\u{2029}"));
    assert!(!is_blank(" . "));
}
