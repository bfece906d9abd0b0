use distant_core::protocol::version::{
    is_compatible_with, protocol_version, SemVer, PROTOCOL_VERSION_MAJOR, PROTOCOL_VERSION_MINOR,
    PROTOCOL_VERSION_PATCH,
};

fn version(major: u64, minor: u64, patch: u64) -> SemVer {
    SemVer { major, minor, patch, pre: String::new(), build: String::new() }
}

#[test]
fn protocol_version_is_compatible_with_itself() {
    assert!(is_compatible_with(&protocol_version()));
}

#[test]
fn major_bump_is_incompatible() {
    assert!(!is_compatible_with(&version(
        PROTOCOL_VERSION_MAJOR + 1,
        PROTOCOL_VERSION_MINOR,
        PROTOCOL_VERSION_PATCH
    )));
}

#[test]
fn minor_bump_is_incompatible_while_major_is_zero() {
    assert!(!is_compatible_with(&version(
        PROTOCOL_VERSION_MAJOR,
        PROTOCOL_VERSION_MINOR + 1,
        PROTOCOL_VERSION_PATCH
    )));
}

#[test]
fn patch_bump_is_compatible() {
    assert!(is_compatible_with(&version(
        PROTOCOL_VERSION_MAJOR,
        PROTOCOL_VERSION_MINOR,
        PROTOCOL_VERSION_PATCH + 1
    )));
}

#[test]
fn older_minor_and_pre_release_are_incompatible() {
    assert!(!is_compatible_with(&version(0, 0, 9)));
    let mut pre = protocol_version();
    pre.pre = "alpha.1".to_string();
    assert!(!is_compatible_with(&pre));
    let mut build = protocol_version();
    build.build = "sha.1234".to_string();
    assert!(is_compatible_with(&build));
}
