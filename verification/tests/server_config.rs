use std::time::Duration;

use distant_core::net::server::config::{ServerConfig, Shutdown, ShutdownForm, ShutdownParseError};

#[test]
fn server_config_default_has_expected_connection_sleep() {
    let config = ServerConfig::default();
    assert_eq!(config.connection_sleep, Duration::from_millis(1));
}

#[test]
fn server_config_default_has_expected_connection_heartbeat() {
    let config = ServerConfig::default();
    assert_eq!(config.connection_heartbeat, Duration::from_secs(5));
}

#[test]
fn server_config_default_has_never_shutdown() {
    let config = ServerConfig::default();
    assert_eq!(config.shutdown, Shutdown::Never);
}

#[test]
fn shutdown_from_str_parses_never() {
    let s = Shutdown::parse_form("never").unwrap();
    assert_eq!(s, ShutdownForm::Never);
}

#[test]
fn shutdown_from_str_parses_never_case_insensitive() {
    let s = Shutdown::parse_form("NEVER").unwrap();
    assert_eq!(s, ShutdownForm::Never);

    let s2 = Shutdown::parse_form("Never").unwrap();
    assert_eq!(s2, ShutdownForm::Never);
}

#[test]
fn shutdown_from_str_fails_with_missing_key() {
    let err = Shutdown::parse_form("noequals").unwrap_err();
    assert_eq!(err, ShutdownParseError::MissingKey);
}

#[test]
fn shutdown_from_str_fails_with_unknown_key() {
    let err = Shutdown::parse_form("unknown=5").unwrap_err();
    assert_eq!(err, ShutdownParseError::UnknownKey);
}

#[test]
fn shutdown_duration_returns_some_for_after() {
    let s = Shutdown::After(Duration::from_secs(5));
    assert_eq!(s.duration(), Some(Duration::from_secs(5)));
}

#[test]
fn shutdown_duration_returns_some_for_lonely() {
    let s = Shutdown::Lonely(Duration::from_secs(10));
    assert_eq!(s.duration(), Some(Duration::from_secs(10)));
}

#[test]
fn shutdown_duration_returns_none_for_never() {
    let s = Shutdown::Never;
    assert_eq!(s.duration(), None);
}

#[test]
fn shutdown_default_is_never() {
    assert_eq!(Shutdown::default(), Shutdown::Never);
}

#[test]
fn shutdown_parse_error_display_missing_key() {
    let err = ShutdownParseError::MissingKey;
    assert_eq!(err.to_string(), "Missing key");
}

#[test]
fn shutdown_parse_error_display_unknown_key() {
    let err = ShutdownParseError::UnknownKey;
    assert_eq!(err.to_string(), "Unknown key");
}


#[test]
fn shutdown_form_reads_key_and_value_text() {
    assert_eq!(Shutdown::parse_form("after = 5"), Ok(ShutdownForm::After("5")));
    assert_eq!(Shutdown::parse_form("LONELY=2.5"), Ok(ShutdownForm::Lonely("2.5")));
    assert_eq!(Shutdown::parse_form("after=abc"), Ok(ShutdownForm::After("abc")));
}

#[test]
fn shutdown_parse_error_display_bad_values() {
    assert_eq!(
        ShutdownParseError::BadValueForAfter("invalid float literal".to_string()).to_string(),
        "Bad value for after: invalid float literal"
    );
    assert_eq!(
        ShutdownParseError::BadValueForLonely("x".to_string()).to_string(),
        "Bad value for lonely: x"
    );
}

#[test]
fn shutdown_parse_error_display_bad_value_for_after() {
    let inner = "abc".parse::<f32>().unwrap_err();
    let err = ShutdownParseError::BadValueForAfter(inner.to_string());
    assert_eq!(err.to_string(), format!("Bad value for after: {inner}"));
}

#[test]
fn shutdown_parse_error_display_bad_value_for_lonely() {
    let inner = "xyz".parse::<f32>().unwrap_err();
    let err = ShutdownParseError::BadValueForLonely(inner.to_string());
    assert_eq!(err.to_string(), format!("Bad value for lonely: {inner}"));
}
