use distant_core::protocol::capabilities::{Capabilities, Capability};

fn cap(kind: &str, description: &str) -> Capability {
    Capability { kind: kind.to_string(), description: description.to_string() }
}

#[test]
fn capabilities_compare_by_kind_ignoring_case() {
    assert_eq!(cap("exec", "a"), cap("EXEC", "b"));
    assert_ne!(cap("exec", "a"), cap("exists", "a"));
}

#[test]
fn insert_keeps_one_capability_per_kind() {
    let mut caps = Capabilities::none();
    assert!(caps.insert(cap("read", "first")));
    assert!(!caps.insert(cap("READ", "second")));
    assert!(caps.contains("Read"));
    assert!(!caps.contains("write"));
    assert_eq!(caps.len(), 1);
}

#[test]
fn take_and_remove_find_capabilities_by_kind() {
    let mut caps = Capabilities::none();
    caps.insert(cap("read", "reads"));
    caps.insert(cap("write", "writes"));
    let taken = caps.take("READ").unwrap();
    assert_eq!(taken.description, "reads");
    assert!(caps.take("read").is_none());
    assert!(caps.remove("write"));
    assert!(!caps.remove("write"));
    assert_eq!(caps.len(), 0);
}

#[test]
fn into_sorted_vec_orders_by_kind() {
    let mut caps = Capabilities::none();
    caps.insert(cap("watch", ""));
    caps.insert(cap("Exec", ""));
    caps.insert(cap("copy", ""));
    caps.insert(cap("exists", ""));
    let kinds: Vec<String> = caps.into_sorted_vec().into_iter().map(|c| c.kind).collect();
    assert_eq!(kinds, vec!["copy", "Exec", "exists", "watch"]);
}

fn kinds(caps: Capabilities) -> Vec<(String, String)> {
    caps.into_sorted_vec().into_iter().map(|c| (c.kind, c.description)).collect()
}

fn set(items: &[(&str, &str)]) -> Capabilities {
    Capabilities::from_iter(items.iter().map(|(k, d)| cap(k, d)).collect())
}

#[test]
fn from_iter_keeps_the_first_of_each_kind() {
    let caps = set(&[("read", "one"), ("write", "w"), ("READ", "two")]);
    assert_eq!(caps.len(), 2);
    assert_eq!(
        kinds(caps),
        vec![("read".to_string(), "one".to_string()), ("write".to_string(), "w".to_string())]
    );
}

#[test]
fn set_operations_on_capabilities() {
    let a = set(&[("read", "a"), ("write", "a")]);
    let b = set(&[("WRITE", "b"), ("exec", "b"), ("search", "b")]);
    assert_eq!(kinds(&a & &b), vec![("write".to_string(), "a".to_string())]);
    assert_eq!(
        kinds(&a | &b),
        vec![
            ("exec".to_string(), "b".to_string()),
            ("read".to_string(), "a".to_string()),
            ("search".to_string(), "b".to_string()),
            ("write".to_string(), "a".to_string()),
        ]
    );
    assert_eq!(
        kinds(&a ^ &b),
        vec![
            ("exec".to_string(), "b".to_string()),
            ("read".to_string(), "a".to_string()),
            ("search".to_string(), "b".to_string()),
        ]
    );
    assert_eq!((&a | cap("READ", "x")).len(), 2);
    assert_eq!((&a | cap("exec", "x")).len(), 3);
}

#[test]
fn intersection_keeps_the_capabilities_of_the_smaller_set() {
    let small = set(&[("write", "small")]);
    let big = set(&[("WRITE", "big"), ("exec", "big")]);
    assert_eq!(kinds(&big & &small), vec![("write".to_string(), "small".to_string())]);
}

#[test]
fn none_holds_nothing_and_is_neutral_for_set_operations() {
    let none = Capabilities::none();
    assert!(!none.contains("exec"));
    assert!(!none.contains(""));
    assert_eq!(none.len(), 0);
    assert!(none.clone().into_sorted_vec().is_empty());

    let mut caps = Capabilities::none();
    caps.insert(cap("read", "reads"));
    caps.insert(cap("Write", "writes"));

    let union = &caps | &none;
    assert_eq!(union.len(), 2);
    assert!(union.contains("read") && union.contains("write"));
    let union = &none | &caps;
    assert_eq!(union.len(), 2);
    assert!(union.contains("READ") && union.contains("write"));

    assert_eq!((&caps & &none).len(), 0);
    assert_eq!((&none & &caps).len(), 0);

    let xor = &caps ^ &none;
    assert_eq!(xor.len(), 2);
    assert!(xor.contains("read") && xor.contains("write"));
    let xor = &none ^ &caps;
    assert_eq!(xor.len(), 2);
    assert!(xor.contains("read") && xor.contains("write"));
}
