use distant_core::protocol::msg::Msg;

#[test]
fn single_constructor_should_create_single_variant() {
    let msg: Msg<i32> = Msg::single(42);
    assert!(msg.is_single());
    assert!(!msg.is_batch());
}

#[test]
fn batch_constructor_should_create_batch_variant() {
    let msg: Msg<i32> = Msg::batch(vec![1, 2, 3]);
    assert!(msg.is_batch());
    assert!(!msg.is_single());
}

#[test]
fn batch_constructor_should_accept_iterator() {
    let msg: Msg<i32> = Msg::batch((0..3).map(|i| i * 10).collect());
    assert!(msg.is_batch());
    assert_eq!(msg.as_batch().unwrap(), &[0, 10, 20]);
}

#[test]
fn as_single_should_return_some_for_single() {
    let msg: Msg<i32> = Msg::single(42);
    assert_eq!(msg.as_single(), Some(&42));
}

#[test]
fn as_single_should_return_none_for_batch() {
    let msg: Msg<i32> = Msg::batch(vec![1, 2]);
    assert!(msg.as_single().is_none());
}

#[test]
fn as_mut_single_should_return_some_for_single() {
    let mut msg: Msg<i32> = Msg::single(42);
    assert_eq!(msg.as_mut_single(), Some(&mut 42));
}

#[test]
fn as_mut_single_allows_changing_the_payload() {
    let mut msg: Msg<i32> = Msg::single(42);
    if let Some(x) = msg.as_mut_single() {
        *x = 7;
    }
    assert_eq!(msg.as_single(), Some(&7));
}

#[test]
fn as_mut_single_should_return_none_for_batch() {
    let mut msg: Msg<i32> = Msg::batch(vec![1, 2]);
    assert!(msg.as_mut_single().is_none());
}

#[test]
fn into_single_should_return_some_for_single() {
    let msg: Msg<i32> = Msg::single(42);
    assert_eq!(msg.into_single(), Some(42));
}

#[test]
fn into_single_should_return_none_for_batch() {
    let msg: Msg<i32> = Msg::batch(vec![1, 2]);
    assert!(msg.into_single().is_none());
}

#[test]
fn as_batch_should_return_some_for_batch() {
    let msg: Msg<i32> = Msg::batch(vec![10, 20, 30]);
    assert_eq!(msg.as_batch(), Some([10, 20, 30].as_slice()));
}

#[test]
fn as_batch_should_return_none_for_single() {
    let msg: Msg<i32> = Msg::single(42);
    assert!(msg.as_batch().is_none());
}

#[test]
fn as_mut_batch_should_return_some_for_batch() {
    let mut msg: Msg<i32> = Msg::batch(vec![10, 20]);
    let batch = msg.as_mut_batch().unwrap();
    batch[0] = 99;
    assert_eq!(msg.as_batch().unwrap()[0], 99);
}

#[test]
fn as_mut_batch_should_return_none_for_single() {
    let mut msg: Msg<i32> = Msg::single(42);
    assert!(msg.as_mut_batch().is_none());
}

#[test]
fn into_batch_should_return_some_for_batch() {
    let msg: Msg<i32> = Msg::batch(vec![10, 20]);
    assert_eq!(msg.into_batch(), Some(vec![10, 20]));
}

#[test]
fn into_batch_should_return_none_for_single() {
    let msg: Msg<i32> = Msg::single(42);
    assert!(msg.into_batch().is_none());
}

#[test]
fn into_vec_should_wrap_single_in_vec() {
    let msg: Msg<i32> = Msg::single(42);
    assert_eq!(msg.into_vec(), vec![42]);
}

#[test]
fn into_vec_should_return_batch_contents() {
    let msg: Msg<i32> = Msg::batch(vec![1, 2, 3]);
    assert_eq!(msg.into_vec(), vec![1, 2, 3]);
}

#[test]
fn from_impl_should_create_single_from_value() {
    let msg: Msg<i32> = Msg::from(42);
    assert!(msg.is_single());
    assert_eq!(msg.as_single(), Some(&42));
}

#[test]
fn from_impl_should_create_batch_from_vec() {
    let msg: Msg<i32> = Msg::from(vec![1, 2, 3]);
    assert!(msg.is_batch());
    assert_eq!(msg.as_batch().unwrap(), &[1, 2, 3]);
}

#[test]
fn single_and_batch_messages_with_equal_payloads_differ() {
    assert_ne!(Msg::single(1), Msg::batch(vec![1]));
    assert_eq!(Msg::batch(vec![1, 2]).into_vec(), Msg::from(vec![1, 2]).into_vec());
}
