use bewegung::text_map::{chars_lt, TextMap};
use bewegung::text::chars_of;

#[test]
fn insert_get_take() {
    let mut m: TextMap<u32> = TextMap::new();
    m.insert("b".to_string(), 2);
    m.insert("a".to_string(), 1);
    m.insert("ä".to_string(), 4);
    m.insert("b".to_string(), 3);
    assert_eq!(m.len(), 3);
    assert_eq!(m.get("b"), Some(&3));
    assert_eq!(m.get("c"), None);
    let keys: Vec<&String> = (0..m.len()).map(|i| m.key_at(i)).collect();
    assert_eq!(keys, vec!["a", "b", "ä"]);
    assert_eq!(m.find("ä"), Some(2));
    assert_eq!(m.take("a"), Some(1));
    assert_eq!(m.take("a"), None);
    assert_eq!(m.len(), 2);
    assert_eq!(*m.value_at(0), 3);
}

#[test]
fn order_is_the_order_of_strings() {
    for (a, b) in [("", "a"), ("a", "b"), ("ab", "b"), ("Z", "a"), ("a", "ab"), ("é", "z"), ("x", "x")] {
        assert_eq!(chars_lt(&chars_of(a), &chars_of(b)), a < b, "{a} {b}");
        assert_eq!(chars_lt(&chars_of(b), &chars_of(a)), b < a, "{b} {a}");
    }
}

#[test]
fn insert_all_keeps_unnamed_keys_and_last_write_wins() {
    let mut m: TextMap<u32> = TextMap::new();
    m.insert("kept".to_string(), 1);
    m.insert("page".to_string(), 2);
    m.insert_all(vec![
        ("page".to_string(), 10),
        ("new".to_string(), 20),
        ("page".to_string(), 30),
    ]);
    assert_eq!(m.len(), 3);
    assert_eq!(m.get("kept"), Some(&1));
    assert_eq!(m.get("page"), Some(&30));
    assert_eq!(m.get("new"), Some(&20));
    m.insert_all(vec![]);
    assert_eq!(m.len(), 3);
}
