use gers::intern::{InternStr, InternTable};
use std::collections::{HashMap, HashSet};

#[test]
fn test_convert() {
    let mut table = InternTable::new();
    let a = table.get_or_insert("foobar");
    let b = table.get_or_insert("foobar");

    assert_eq!(a, b);
    // the same Rc must be returned for the same given string
    assert!(a.ptr_eq(&b));
}

#[test]
fn test_eq() {
    let a = InternStr::from_string("foobar".to_string());
    let b = InternStr::from_string("foobar".to_string());

    // equality test must pass even though the Rcs are distinct
    assert_eq!(a, b);
    assert!(!a.ptr_eq(&b));
}

/// Ensure that `InternStr` can be compared to `&str`.
#[test]
fn test_collections() {
    let mut map: HashMap<Box<str>, InternStr> = HashMap::new();
    map.insert("foobar".into(), InternStr::from_string("foobar".into()));
    map.get("foobar").expect("get by &'static str");
    map.get("foobar".to_string().as_str()).expect("get by as_str()");

    let mut set: HashSet<InternStr> = HashSet::new();
    set.insert(InternStr::from_string("foobar".into()));
    set.get("foobar".to_string().as_str()).expect("get by as_str()");
}

#[test]
fn test_iter() {
    let mut table = InternTable::new();
    let foobar_intern = table.get_or_insert("foobar");
    let foobar = "foobar";
    for (a, b) in foobar_intern.as_str().chars().zip(foobar.chars()) {
        assert_eq!(a, b);
    }
}

fn score(table: &InternTable) -> f32 {
    let (garbage, total) = table.garbage_score();
    if total == 0 {
        0.0
    } else {
        garbage as f32 / total as f32
    }
}

#[test]
fn test_garbage_collection() {
    let mut table = InternTable::new();
    let _ = table.get_or_insert("a");
    let _ = table.get_or_insert("b");
    let _ = table.get_or_insert("c");
    let _ = table.get_or_insert("d");

    assert_eq!(score(&table), 1.0);

    table.collect_garbage();
    assert_eq!(score(&table), 0.0);
}

#[test]
fn garbage_collection_keeps_strings_in_use() {
    let mut table = InternTable::new();
    let a = table.get_or_insert("a");
    let _ = table.get_or_insert("b");
    let c = table.get_or_insert("c");
    assert_eq!(table.garbage_score(), (1, 3));
    InternStr::gc(&mut table);
    assert_eq!(table.len(), 2);
    assert_eq!(table.garbage_score(), (0, 2));
    assert!(table.get_or_insert("a").ptr_eq(&a));
    assert!(table.get_or_insert("c").ptr_eq(&c));
    assert_eq!(table.len(), 2);
}

#[test]
fn retain_drops_unflagged_strings() {
    let mut table = InternTable::new();
    let a = table.get_or_insert("a");
    let b = table.get_or_insert("b");
    table.retain(&vec![false, true]);
    assert_eq!(table.len(), 1);
    assert!(table.get_or_insert("b").ptr_eq(&b));
    assert!(!table.get_or_insert("a").ptr_eq(&a));
}

#[test]
fn interned_string_reads_back() {
    let mut table = InternTable::new();
    let s = table.get_or_insert("héllo");
    assert_eq!(s.as_str(), "héllo");
    assert!(s.eq_str("héllo"));
    assert!(!s.eq_str("hello"));
    assert!(s.share().ptr_eq(&s));
    assert_eq!(InternStr::from_str("x").as_str(), "x");
}
