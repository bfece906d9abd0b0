use std::path::PathBuf;

use distant_core::protocol::change::{Change, ChangeKind, ChangeKindSet};
use distant_core::protocol::fs_event::{
    AccessKind, AccessMode, CreateKind, DataChange, EventKind, MetadataKind, ModifyKind,
    RemoveKind, RenameMode,
};

#[test]
fn event_kinds_map_to_change_kinds() {
    let cases = vec![
        (EventKind::Access(AccessKind::Read), ChangeKind::AccessRead),
        (EventKind::Access(AccessKind::Open(AccessMode::Execute)), ChangeKind::AccessOpenExecute),
        (EventKind::Access(AccessKind::Close(AccessMode::Write)), ChangeKind::AccessCloseWrite),
        (EventKind::Access(AccessKind::Open(AccessMode::Any)), ChangeKind::Access),
        (EventKind::Create(CreateKind::Folder), ChangeKind::Create),
        (EventKind::Modify(ModifyKind::Name(RenameMode::Both)), ChangeKind::RenameBoth),
        (EventKind::Modify(ModifyKind::Name(RenameMode::Other)), ChangeKind::Rename),
        (EventKind::Modify(ModifyKind::Data(DataChange::Size)), ChangeKind::Size),
        (EventKind::Modify(ModifyKind::Data(DataChange::Any)), ChangeKind::Data),
        (EventKind::Modify(ModifyKind::Metadata(MetadataKind::Ownership)), ChangeKind::Ownership),
        (EventKind::Modify(ModifyKind::Metadata(MetadataKind::Extended)), ChangeKind::Metadata),
        (EventKind::Modify(ModifyKind::Any), ChangeKind::Modify),
        (EventKind::Remove(RemoveKind::File), ChangeKind::Remove),
        (EventKind::Any, ChangeKind::Unknown),
        (EventKind::Other, ChangeKind::Unknown),
    ];
    for (event, kind) in cases {
        assert_eq!(ChangeKind::from_event_kind(event), kind);
    }
}

#[test]
fn change_from_event_keeps_paths() {
    let change = Change::from_event(EventKind::Create(CreateKind::File), vec![PathBuf::from("/a")]);
    assert_eq!(change.kind, ChangeKind::Create);
    assert_eq!(change.paths, vec![PathBuf::from("/a")]);
}

#[test]
fn named_sets_hold_their_families() {
    assert_eq!(ChangeKindSet::access_open_set().len(), 3);
    assert_eq!(ChangeKindSet::access_close_set().len(), 3);
    assert_eq!(ChangeKindSet::access_set().len(), 8);
    assert_eq!(ChangeKindSet::modify_data_set().len(), 3);
    assert_eq!(ChangeKindSet::modify_metadata_set().len(), 5);
    assert_eq!(ChangeKindSet::modify_set().len(), 9);
    assert_eq!(ChangeKindSet::rename_set().len(), 4);
    assert_eq!(ChangeKindSet::all().len(), 24);
    assert!(ChangeKindSet::access_set().contains(&ChangeKind::AccessRead));
    assert!(!ChangeKindSet::modify_set().contains(&ChangeKind::Rename));
}

#[test]
fn predicates_agree_with_named_sets() {
    for kind in ChangeKind::all() {
        assert_eq!(kind.is_access_kind(), ChangeKindSet::access_set().contains(&kind));
        assert_eq!(kind.is_modify_kind(), ChangeKindSet::modify_set().contains(&kind));
        assert_eq!(kind.is_rename_kind(), ChangeKindSet::rename_set().contains(&kind));
    }
}

#[test]
fn legacy_display_and_parse_round_trip() {
    let set = ChangeKind::WriteTime | ChangeKind::Content | ChangeKind::Create;
    assert_eq!(set.to_string(), "content,create,write_time");
    let parsed: ChangeKindSet = " content , write_time,create".parse().unwrap();
    assert_eq!(parsed, set);
    assert_eq!(ChangeKind::variants().len(), 24);
}

#[test]
fn every_legacy_kind_is_in_exactly_one_family() {
    let kinds = ChangeKind::all();
    assert_eq!(kinds.len(), 24);
    let mut counts = [0usize; 6];
    for kind in kinds {
        assert_eq!(
            kind.is_access_kind(),
            kind.is_open_access_kind()
                || kind.is_close_access_kind()
                || kind == ChangeKind::Access
                || kind == ChangeKind::AccessRead
        );
        assert!(!(kind.is_open_access_kind() && kind.is_close_access_kind()));
        assert_eq!(
            kind.is_modify_kind(),
            kind.is_data_modify_kind() || kind.is_metadata_modify_kind() || kind == ChangeKind::Modify
        );
        let families = [
            kind.is_access_kind(),
            kind.is_create_kind(),
            kind.is_modify_kind(),
            kind.is_rename_kind(),
            kind.is_remove_kind(),
            kind.is_unknown_kind(),
        ];
        assert_eq!(families.iter().filter(|b| **b).count(), 1);
        for (i, b) in families.iter().enumerate() {
            if *b {
                counts[i] += 1;
            }
        }
    }
    assert_eq!(counts, [8, 1, 9, 4, 1, 1]);
}
