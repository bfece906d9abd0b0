use distant_core::net::common::id_set::IdSet;
use distant_core::net::manager::server::authentication::AuthRegistry;
use distant_core::protocol::common::error::IoErrorKind;

#[test]
fn answer_to_expected_question_is_taken_once() {
    let mut reg = AuthRegistry::new();
    reg.expect(7);
    assert_eq!(reg.answer(7), Ok(()));
    let err = reg.answer(7).unwrap_err();
    assert_eq!(err.kind, IoErrorKind::InvalidInput);
    assert_eq!(err.description, "Invalid authentication id");
}

#[test]
fn answer_to_unknown_question_is_refused() {
    let mut reg = AuthRegistry::new();
    reg.expect(1);
    assert!(reg.answer(2).is_err());
    assert_eq!(reg.answer(1), Ok(()));
}

#[test]
fn id_set_holds_each_id_once() {
    let mut set = IdSet::new();
    set.insert(3);
    set.insert(3);
    set.insert(4);
    assert_eq!(set.to_vec(), vec![3, 4]);
    assert!(set.remove(3));
    assert!(!set.remove(3));
    assert!(!set.contains(3));
    assert!(set.contains(4));
}
