use distant_core::net::manager::server::channels::{ChannelRegistry, ConnectionAction, ConnectionEffect};

#[test]
fn registered_channel_gets_the_response_to_its_request() {
    let mut reg = ChannelRegistry::new();
    assert_eq!(reg.step(ConnectionAction::Register(5)), ConnectionEffect::Nothing);
    let forwarded = reg.step(ConnectionAction::Write(5, "abc".to_string()));
    assert_eq!(forwarded, ConnectionEffect::Forward("5_abc".to_string()));
    assert_eq!(
        reg.step(ConnectionAction::Read("5_abc".to_string())),
        ConnectionEffect::Deliver(5, "abc".to_string())
    );
}

#[test]
fn response_for_unknown_or_unregistered_channel_goes_nowhere() {
    let mut reg = ChannelRegistry::new();
    reg.register(5);
    assert_eq!(reg.step(ConnectionAction::Read("6_abc".to_string())), ConnectionEffect::Nothing);
    reg.unregister(5);
    assert!(!reg.contains(5));
    assert_eq!(reg.step(ConnectionAction::Read("5_abc".to_string())), ConnectionEffect::Nothing);
}

#[test]
fn response_with_malformed_origin_goes_nowhere() {
    let mut reg = ChannelRegistry::new();
    reg.register(5);
    assert_eq!(reg.step(ConnectionAction::Read("abc".to_string())), ConnectionEffect::Nothing);
    assert_eq!(reg.step(ConnectionAction::Read("x_abc".to_string())), ConnectionEffect::Nothing);
    assert_eq!(reg.route_response("5_a_b"), Some((5, "a_b")));
}

#[test]
fn write_is_forwarded_even_for_an_unregistered_channel() {
    let mut reg = ChannelRegistry::new();
    assert_eq!(
        reg.step(ConnectionAction::Write(9, "req".to_string())),
        ConnectionEffect::Forward("9_req".to_string())
    );
}

#[test]
fn get_registered_lists_each_channel_once() {
    let mut reg = ChannelRegistry::new();
    reg.register(1);
    reg.register(2);
    reg.register(1);
    match reg.step(ConnectionAction::GetRegistered) {
        ConnectionEffect::Registered(mut ids) => {
            ids.sort();
            assert_eq!(ids, vec![1, 2]);
        }
        other => panic!("unexpected {other:?}"),
    }
    reg.step(ConnectionAction::Unregister(1));
    assert_eq!(reg.registered(), vec![2]);
}
