use distant_core::protocol::utils::{is_false, is_one, one};

#[test]
fn serialization_helpers() {
    assert!(is_false(&false));
    assert!(!is_false(&true));
    assert!(is_one(&1));
    assert!(!is_one(&2));
    assert_eq!(one(), 1);
}
