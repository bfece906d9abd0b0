use distant_core::protocol::permissions::Permissions;

#[test]
fn readonly_permissions_report_readonly() {
    let permissions = Permissions::readonly();
    assert_eq!(permissions.is_readonly(), Some(true));
    assert_eq!(permissions.is_writable(), Some(false));
}

#[test]
fn writable_permissions_report_writable() {
    let permissions = Permissions::writable();
    assert_eq!(permissions.is_readonly(), Some(false));
    assert_eq!(permissions.is_writable(), Some(true));
}

#[test]
fn unix_mode_round_trips_through_permissions() {
    let p = Permissions::from_unix_mode(0o754);
    assert!(p.is_complete());
    assert_eq!(p.owner_exec, Some(true));
    assert_eq!(p.group_write, Some(false));
    assert_eq!(p.other_read, Some(true));
    assert_eq!(p.to_unix_mode(), 0o754);
    assert_eq!(Permissions::from_unix_mode(0o100755).to_unix_mode(), 0o755);
}

#[test]
fn missing_settings_count_as_zero_bits() {
    assert_eq!(Permissions::readonly().to_unix_mode(), 0o444);
    assert!(!Permissions::readonly().is_complete());
}

#[test]
fn apply_from_overwrites_only_present_settings() {
    let mut base = Permissions::from_unix_mode(0o000);
    base.apply_from(&Permissions::writable());
    assert_eq!(base.to_unix_mode(), 0o666);
    let mut other = Permissions::from_unix_mode(0o777);
    Permissions::readonly().apply_to(&mut other);
    assert_eq!(other.to_unix_mode(), 0o555);
}

#[test]
fn writable_status_follows_the_write_settings_that_are_set() {
    let mut p = Permissions::writable();
    p.group_write = None;
    assert_eq!(p.is_writable(), Some(true));
    assert_eq!(p.is_readonly(), Some(false));
    let mut q = Permissions::readonly();
    q.other_write = None;
    assert_eq!(q.is_writable(), Some(false));
    q.owner_write = None;
    q.group_write = None;
    assert_eq!(q.is_writable(), None);
    assert_eq!(q.is_readonly(), None);
}
