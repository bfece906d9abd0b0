use distant_core::net::client::ConnectionState;
use distant_core::net::manager::server::reconnect::non_interactive_challenge_error;
use distant_core::protocol::common::error::IoErrorKind;
use distant_core::net::common::map::StringMap;
use distant_core::net::manager::server::reconnect::{
    clamp_sleep, reconnect_step, ReconnectEvent, ReconnectPhase,
    after_failed_attempt, end_state, reconnect_start, should_attempt, start_state, ReconnectStart,
};

#[test]
fn reconnection_starts_only_when_enabled_served_and_supported() {
    let mut options = StringMap::new();
    assert_eq!(reconnect_start(&options, true, false), ReconnectStart::Begin);
    assert_eq!(reconnect_start(&options, false, false), ReconnectStart::NoPlugin);
    assert_eq!(reconnect_start(&options, true, true), ReconnectStart::NotSupported);
    options.insert("no_reconnect".to_string(), "true".to_string());
    assert_eq!(reconnect_start(&options, false, true), ReconnectStart::Disabled);
}

#[test]
fn announced_states_follow_the_decisions() {
    assert_eq!(start_state(ReconnectStart::Begin), ConnectionState::Reconnecting);
    assert_eq!(start_state(ReconnectStart::Disabled), ConnectionState::Disconnected);
    assert_eq!(start_state(ReconnectStart::NoPlugin), ConnectionState::Disconnected);
    assert_eq!(start_state(ReconnectStart::NotSupported), ConnectionState::Disconnected);
    assert_eq!(end_state(true), ConnectionState::Connected);
    assert_eq!(end_state(false), ConnectionState::Disconnected);
}

#[test]
fn limited_retries_run_out() {
    let mut remaining = Some(2usize);
    let mut attempts = 0;
    while should_attempt(remaining) {
        attempts += 1;
        remaining = after_failed_attempt(remaining);
    }
    assert_eq!(attempts, 2);
    assert_eq!(remaining, Some(0));
    assert!(should_attempt(None));
    assert_eq!(after_failed_attempt(None), None);
}

#[test]
fn background_reconnection_refuses_challenges() {
    assert_eq!(
        non_interactive_challenge_error(),
        (
            IoErrorKind::PermissionDenied,
            "non-interactive reconnection cannot answer authentication challenges".to_string()
        )
    );
}

#[test]
fn sleep_is_clamped_to_the_longest_pause() {
    assert_eq!(clamp_sleep(5_000, Some(2_000)), 2_000);
    assert_eq!(clamp_sleep(1_000, Some(2_000)), 1_000);
    assert_eq!(clamp_sleep(9_000, None), 9_000);
}

fn run(events: Vec<ReconnectEvent>) -> (Vec<ConnectionState>, usize) {
    let mut phase = ReconnectPhase::Idle;
    let mut announced = Vec::new();
    let mut attempts = 0;
    for e in events {
        let step = reconnect_step(phase, e);
        phase = step.phase;
        announced.extend(step.announce);
        if step.attempt {
            attempts += 1;
        }
    }
    (announced, attempts)
}

#[test]
fn disabled_reconnection_announces_one_disconnect() {
    let (a, n) = run(vec![ReconnectEvent::Died { start: ReconnectStart::Disabled, max_retries: Some(3) }, ReconnectEvent::Failed, ReconnectEvent::Succeeded]);
    assert_eq!(a, vec![ConnectionState::Disconnected]);
    assert_eq!(n, 0);
}

#[test]
fn reconnection_announces_reconnecting_then_the_end() {
    let (a, n) = run(vec![ReconnectEvent::Died { start: ReconnectStart::Begin, max_retries: Some(3) }, ReconnectEvent::Failed, ReconnectEvent::Succeeded, ReconnectEvent::Failed]);
    assert_eq!(a, vec![ConnectionState::Reconnecting, ConnectionState::Connected]);
    assert_eq!(n, 2);
    let (a, n) = run(vec![ReconnectEvent::Died { start: ReconnectStart::Begin, max_retries: Some(2) }, ReconnectEvent::Failed, ReconnectEvent::Failed, ReconnectEvent::Failed]);
    assert_eq!(a, vec![ConnectionState::Reconnecting, ConnectionState::Disconnected]);
    assert_eq!(n, 2);
    let (a, n) = run(vec![ReconnectEvent::Died { start: ReconnectStart::Begin, max_retries: Some(0) }]);
    assert_eq!(a, vec![ConnectionState::Reconnecting, ConnectionState::Disconnected]);
    assert_eq!(n, 0);
    let (a, _) = run(vec![ReconnectEvent::Died { start: ReconnectStart::Begin, max_retries: None }, ReconnectEvent::Gone]);
    assert_eq!(a, vec![ConnectionState::Reconnecting]);
}
