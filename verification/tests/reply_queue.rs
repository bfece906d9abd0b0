use distant_core::net::server::reply::{ReplyAction, ReplyQueue};

#[test]
fn held_messages_are_flushed_in_order_with_send_before_first() {
    let mut q: ReplyQueue<u32> = ReplyQueue::new();
    assert!(q.is_holding());
    assert_eq!(q.send(1), ReplyAction::Queued);
    assert_eq!(q.send(2), ReplyAction::Queued);
    assert_eq!(q.send_before(0), ReplyAction::Queued);
    assert_eq!(q.flush(false), vec![0, 1, 2]);
    assert!(!q.is_holding());
    assert_eq!(q.send(3), ReplyAction::SendNow(3));
    assert_eq!(q.send_before(4), ReplyAction::SendNow(4));
    assert_eq!(q.take_pending(), Vec::<u32>::new());
}

#[test]
fn hold_can_be_turned_back_on() {
    let mut q: ReplyQueue<&str> = ReplyQueue::new();
    q.hold(false);
    assert_eq!(q.send("a"), ReplyAction::SendNow("a"));
    q.hold(true);
    assert_eq!(q.send("b"), ReplyAction::Queued);
    assert_eq!(q.flush(true), vec!["b"]);
    assert!(q.is_holding());
}
