use sqlite_mpi::strmap::StrMap;

fn s(x: &str) -> String {
    x.to_string()
}

#[test]
fn insert_get_and_replace() {
    let mut m: StrMap<u32> = StrMap::new();
    assert_eq!(m.len(), 0);
    assert_eq!(m.insert(s("a"), 1), None);
    assert_eq!(m.insert(s("b"), 2), None);
    assert_eq!(m.len(), 2);
    assert_eq!(m.get(&s("a")), Some(&1));
    assert_eq!(m.get(&s("b")), Some(&2));
    assert_eq!(m.get(&s("c")), None);
    assert!(m.contains_key(&s("a")));
    assert!(!m.contains_key(&s("A")));

    // a key that is there keeps its place and gives its old value back
    assert_eq!(m.insert(s("a"), 10), Some(1));
    assert_eq!(m.len(), 2);
    assert_eq!(m.index_of(&s("a")), Some(0));
    assert_eq!(m.index_of(&s("b")), Some(1));
    assert_eq!(m.get(&s("a")), Some(&10));
}

#[test]
fn entries_keep_the_order_of_insertion() {
    let mut m: StrMap<&'static str> = StrMap::new();
    for k in ["z", "a", "m"] {
        m.insert(s(k), "v");
    }
    let keys: Vec<&str> = (0..m.len()).map(|i| m.key_at(i).as_str()).collect();
    assert_eq!(keys, vec!["z", "a", "m"]);
    assert_eq!(*m.val_at(1), "v");
}

#[test]
fn remove_closes_the_gap() {
    let mut m: StrMap<u32> = StrMap::new();
    for (i, k) in ["a", "b", "c"].iter().enumerate() {
        m.insert(s(k), i as u32);
    }
    assert_eq!(m.remove(&s("b")), Some(1));
    assert_eq!(m.remove(&s("b")), None);
    assert_eq!(m.len(), 2);
    assert_eq!(m.index_of(&s("c")), Some(1));
    assert_eq!(m.get(&s("c")), Some(&2));
    let (k, v) = m.remove_at(0);
    assert_eq!((k.as_str(), v), ("a", 0));
    assert_eq!(m.index_of(&s("c")), Some(0));
}

#[test]
fn values_change_in_place() {
    let mut m: StrMap<Vec<u32>> = StrMap::new();
    m.insert(s("a"), vec![1]);
    m.insert(s("b"), vec![2]);
    m.val_at_mut(0).push(3);
    assert_eq!(m.get(&s("a")), Some(&vec![1, 3]));
    assert_eq!(m.replace_at(1, vec![]), vec![2]);
    assert_eq!(m.get(&s("b")), Some(&vec![]));
}

#[test]
fn keys_are_compared_by_their_characters() {
    let mut m: StrMap<u32> = StrMap::new();
    m.insert(s("é"), 1);
    m.insert(s("e\u{301}"), 2);
    assert_eq!(m.len(), 2);
    assert_eq!(m.get(&s("é")), Some(&1));
    assert_eq!(m.insert(String::from("é"), 3), Some(1));
}
