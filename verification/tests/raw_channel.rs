use distant_core::net::manager::client::{
    channel_open_error, channel_open_reply, proxy_step, ChannelOpenFailure, ProxyStep,
};
use distant_core::net::manager::data::response::ManagerResponse;
use distant_core::protocol::common::error::IoErrorKind;

#[test]
fn opened_channel_gives_its_id() {
    let r = ManagerResponse::ChannelOpened { id: 12 };
    assert_eq!(channel_open_reply(Some(&r)), Ok(12));
}

#[test]
fn error_answer_is_a_refusal_with_its_description() {
    let r = ManagerResponse::Error { description: "no such connection".to_string() };
    let failure = channel_open_reply(Some(&r)).unwrap_err();
    assert_eq!(failure, ChannelOpenFailure::Refused("no such connection".to_string()));
    assert_eq!(
        channel_open_error(3, &failure, ""),
        (IoErrorKind::Other, "no such connection".to_string())
    );
}

#[test]
fn other_answer_is_unexpected() {
    let failure = channel_open_reply(Some(&ManagerResponse::Killed)).unwrap_err();
    assert_eq!(failure, ChannelOpenFailure::Unexpected);
    assert_eq!(
        channel_open_error(3, &failure, "Killed"),
        (IoErrorKind::InvalidData, "[Conn 3] Raw channel open unexpected response: Killed".to_string())
    );
}

#[test]
fn no_answer_is_an_abort() {
    let failure = channel_open_reply(None).unwrap_err();
    assert_eq!(failure, ChannelOpenFailure::Aborted);
    assert_eq!(
        channel_open_error(42, &failure, ""),
        (IoErrorKind::ConnectionAborted, "[Conn 42] Raw channel mailbox aborted".to_string())
    );
}

#[test]
fn proxy_writes_channel_responses_and_stops_on_close() {
    let bytes = vec![1u8, 2, 3];
    let r = ManagerResponse::Channel { id: 1, response: bytes.clone() };
    assert_eq!(proxy_step(&r), ProxyStep::Write(&bytes));
    assert_eq!(proxy_step(&ManagerResponse::ChannelClosed { id: 1 }), ProxyStep::Close);
    assert_eq!(proxy_step(&ManagerResponse::Subscribed), ProxyStep::Skip);
}
