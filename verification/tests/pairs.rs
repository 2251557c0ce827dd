use sentry_actix::pairs::{clone_pairs, insert_pair, lookup};

fn pair(name: &str, value: &str) -> (String, String) {
    (name.to_string(), value.to_string())
}

#[test]
fn insert_adds_a_new_name_at_the_end() {
    let mut pairs = vec![];
    insert_pair(&mut pairs, "a".to_string(), "1".to_string());
    insert_pair(&mut pairs, "b".to_string(), "2".to_string());
    assert_eq!(pairs, vec![pair("a", "1"), pair("b", "2")]);
}

#[test]
fn insert_replaces_the_value_of_a_known_name() {
    let mut pairs = vec![pair("a", "1"), pair("b", "2"), pair("c", "3")];
    insert_pair(&mut pairs, "b".to_string(), "two".to_string());
    assert_eq!(pairs, vec![pair("a", "1"), pair("b", "two"), pair("c", "3")]);
    insert_pair(&mut pairs, "B".to_string(), "upper".to_string());
    assert_eq!(pairs.len(), 4);
    assert_eq!(pairs[3], pair("B", "upper"));
}

#[test]
fn lookup_finds_the_value_of_a_name() {
    let pairs = vec![pair("a", "1"), pair("b", "2")];
    assert_eq!(lookup(&pairs, "a"), Some("1".to_string()));
    assert_eq!(lookup(&pairs, "b"), Some("2".to_string()));
    assert_eq!(lookup(&pairs, "c"), None);
    assert_eq!(lookup(&vec![], "a"), None);
}

#[test]
fn lookup_takes_the_later_of_two_pairs() {
    let pairs = vec![pair("a", "1"), pair("b", "2"), pair("a", "3")];
    assert_eq!(lookup(&pairs, "a"), Some("3".to_string()));
}

#[test]
fn clone_pairs_copies_in_order() {
    let pairs = vec![pair("b", "2"), pair("a", "1")];
    assert_eq!(clone_pairs(&pairs), pairs);
    assert!(clone_pairs(&vec![]).is_empty());
}

#[test]
fn insert_replaces_the_later_of_two_pairs() {
    let mut pairs = vec![pair("a", "1"), pair("b", "2"), pair("a", "3")];
    insert_pair(&mut pairs, "a".to_string(), "4".to_string());
    assert_eq!(pairs, vec![pair("a", "1"), pair("b", "2"), pair("a", "4")]);
    assert_eq!(lookup(&pairs, "a"), Some("4".to_string()));
}
