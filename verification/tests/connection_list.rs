use distant_core::net::manager::data::list::ConnectionList;

#[test]
fn new_should_create_empty_list() {
    let list = ConnectionList::new();
    assert!(list.is_empty());
    assert_eq!(list.len(), 0);
}

#[test]
fn default_should_create_empty_list() {
    let list = ConnectionList::default();
    assert!(list.is_empty());
    assert_eq!(list.len(), 0);
}

#[test]
fn connection_destination_should_return_none_for_missing_id() {
    let list = ConnectionList::new();
    assert_eq!(list.connection_destination(999), None);
}


#[test]
fn connection_destination_should_return_some_for_existing_id() {
    let mut list = ConnectionList::new();
    list.insert(1, "ssh://host1:22".to_string());
    assert_eq!(list.connection_destination(1), Some(&"ssh://host1:22".to_string()));
    assert_eq!(list.len(), 1);
    assert_eq!(list.index(1), "ssh://host1:22");
    assert_eq!(list.remove(1), Some("ssh://host1:22".to_string()));
    assert!(list.is_empty());
}

#[test]
fn deref_should_expose_underlying_hashmap() {
    let dest = "host1".to_string();
    let mut list = ConnectionList::new();
    list.insert(1, dest.clone());
    assert!(list.contains_key(1));
    assert!(!list.contains_key(2));
    assert_eq!(list.connection_destination(1), Some(&dest));
}

#[test]
fn deref_mut_should_allow_mutation_through_hashmap_methods() {
    let mut list = ConnectionList::new();
    list.insert(1, "host1".to_string());
    list.insert(2, "host2".to_string());
    assert_eq!(list.len(), 2);
    list.remove(1);
    assert_eq!(list.len(), 1);
    assert!(!list.contains_key(1));
    assert!(list.contains_key(2));
}

#[test]
fn index_should_return_destination_for_existing_id() {
    let dest = "host1".to_string();
    let mut list = ConnectionList::new();
    list.insert(1, dest.clone());
    assert_eq!(list.index(1), &dest);
}

#[test]
fn connection_destination_should_work_with_multiple_entries() {
    let dest1 = "host1".to_string();
    let dest2 = "host2".to_string();
    let mut list = ConnectionList::new();
    list.insert(1, dest1.clone());
    list.insert(2, dest2.clone());
    assert_eq!(list.connection_destination(1), Some(&dest1));
    assert_eq!(list.connection_destination(2), Some(&dest2));
    assert_eq!(list.connection_destination(3), None);
}

#[test]
fn debug_format_should_not_panic() {
    let mut list = ConnectionList::new();
    list.insert(1, "host1".to_string());
    let debug_str = format!("{:?}", list);
    assert!(!debug_str.is_empty());
}

#[test]
#[should_panic]
fn index_should_panic_for_missing_id() {
    let list = ConnectionList::new();
    let _ = list.index(999);
}
