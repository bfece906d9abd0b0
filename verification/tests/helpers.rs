use distant_core::bitset::test_bit;
use distant_core::net::common::map::StringMap;
use distant_core::net::server::builder::Server;
use distant_core::net::server::config::ServerConfig;
use distant_core::plugin::default_schemes;
use distant_core::plugin::process::{classify_setup_line, SetupLine};
use distant_core::protocol::change as legacy;
use distant_core::protocol::common::change::{ChangeKind, ChangeKindSet};
use distant_core::protocol::common::error::{ErrorKind, IoErrorKind};
use distant_core::text::{
    char_is_ws, copy_str, find_char, format_u32, lex_less, parse_u32, push_str, split_once,
    split_once_str, str_eq, str_eq_ignore_ascii_case, to_ascii_lower, to_ascii_lowercase, trim,
};

#[test]
fn text_helpers() {
    let mut s = copy_str("ab");
    push_str(&mut s, "cd");
    assert_eq!(s, "abcd");
    assert_eq!(to_ascii_lower('Q'), 'q');
    assert_eq!(to_ascii_lower('é'), 'é');
    assert_eq!(to_ascii_lowercase("AbC-1"), "abc-1");
    assert!(str_eq_ignore_ascii_case("HeLLo", "hello"));
    assert!(!str_eq_ignore_ascii_case("hello", "help"));
    assert!(str_eq("x", "x"));
    assert!(!str_eq("x", "xy"));
    assert_eq!(find_char("a=b=c", '='), Some(1));
    assert_eq!(find_char("abc", '='), None);
    assert_eq!(split_once("k=v=w", '='), Some(("k", "v=w")));
    assert_eq!(split_once("kv", '='), None);
    assert_eq!(split_once_str("a::b::c", "::"), Some(("a", "b::c")));
    assert_eq!(split_once_str("abc", "::"), None);
    assert!(lex_less("abc", "abd"));
    assert!(lex_less("ab", "abc"));
    assert!(!lex_less("b", "abc"));
    assert!(char_is_ws(' ') && char_is_ws('\n') && !char_is_ws('x'));
    assert_eq!(trim("  a b \t"), "a b");
    assert_eq!(format_u32(0), "0");
    assert_eq!(format_u32(4294967295), "4294967295");
    assert_eq!(parse_u32("4294967295"), Some(4294967295));
    assert_eq!(parse_u32("4294967296"), None);
    assert_eq!(parse_u32(""), None);
    assert_eq!(parse_u32("12a"), None);
}

#[test]
fn bits() {
    assert!(test_bit(0b100, 2));
    assert!(!test_bit(0b100, 1));
    assert!(test_bit(u32::MAX, 31));
}

#[test]
fn string_map_copies_keep_entries() {
    let mut map = StringMap::new();
    map.insert("a".to_string(), "1".to_string());
    map.insert("b".to_string(), "2".to_string());
    let copy = map.clone_map();
    assert_eq!(copy.entries(), map.entries());
    assert_eq!(copy.entries().len(), 2);
}

#[test]
fn default_schemes_is_the_name() {
    assert_eq!(default_schemes("ssh"), vec!["ssh".to_string()]);
}

#[test]
fn setup_lines_are_classified() {
    assert_eq!(classify_setup_line(0, ""), SetupLine::Closed);
    assert_eq!(classify_setup_line(3, "  \n"), SetupLine::Blank);
    assert_eq!(classify_setup_line(10, " {\"a\":1}\n"), SetupLine::Message("{\"a\":1}"));
}

#[test]
fn change_kind_indices_and_names() {
    for (i, kind) in ChangeKind::all().into_iter().enumerate() {
        assert_eq!(ChangeKind::from_index(i as u32), kind);
        assert_eq!(ChangeKind::from_name(&kind.to_string()), Some(kind));
    }
    assert_eq!(ChangeKind::from_name("nope"), None);
    let a = ChangeKindSet::new(vec![ChangeKind::Create, ChangeKind::Delete]);
    let b = ChangeKindSet::new(vec![ChangeKind::Delete, ChangeKind::Rename]);
    let u = a.clone().union(b.clone());
    assert_eq!(u.len(), 3);
    let d = a.difference(b);
    assert!(d.contains(&ChangeKind::Create));
    assert!(!d.contains(&ChangeKind::Delete));
}

#[test]
fn legacy_change_kind_groups() {
    assert!(legacy::ChangeKind::AccessOpenRead.is_open_access_kind());
    assert!(legacy::ChangeKind::AccessCloseWrite.is_close_access_kind());
    assert!(legacy::ChangeKind::Create.is_create_kind());
    assert!(legacy::ChangeKind::Size.is_data_modify_kind());
    assert!(legacy::ChangeKind::Ownership.is_metadata_modify_kind());
    assert!(legacy::ChangeKind::Remove.is_remove_kind());
    assert!(legacy::ChangeKind::Unknown.is_unknown_kind());
    assert!(!legacy::ChangeKind::Create.is_remove_kind());
    for (i, kind) in legacy::ChangeKind::all().into_iter().enumerate() {
        assert_eq!(legacy::ChangeKind::from_index(i as u32), kind);
        assert_eq!(legacy::ChangeKind::from_name(&kind.to_string()), Some(kind));
    }
    let a = legacy::ChangeKindSet::new(vec![legacy::ChangeKind::Create]);
    let b = legacy::ChangeKindSet::new(vec![legacy::ChangeKind::Remove]);
    let u = a.clone().union(b.clone());
    assert_eq!(u.difference(b).into_sorted_vec(), vec![legacy::ChangeKind::Create]);
}

#[test]
fn error_kinds_and_labels() {
    assert_eq!(ErrorKind::NotFound.label(), "NotFound");
    assert_eq!(ErrorKind::NotFound.to_io_kind(), IoErrorKind::NotFound);
    assert_eq!(ErrorKind::from_io_kind(IoErrorKind::TimedOut), ErrorKind::TimedOut);
}

#[test]
fn server_builders_keep_config_and_handler() {
    let server = Server::new().handler(5u8);
    assert_eq!(server.handler, 5u8);
    let tcp = Server::new().config(ServerConfig::default()).into_tcp_builder();
    assert_eq!(tcp.0.handler, ());
    let pipe = Server::new().handler("h").into_windows_pipe_builder();
    assert_eq!(pipe.0.handler, "h");
}
