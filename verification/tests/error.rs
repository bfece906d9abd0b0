use distant_core::protocol::common::error::{Error, ErrorKind, IoErrorKind};

#[test]
fn roundtrip_through_io_error_kind_for_all_mapped_variants() {
    let pairs: &[(ErrorKind, IoErrorKind)] = &[
        (ErrorKind::NotFound, IoErrorKind::NotFound),
        (ErrorKind::PermissionDenied, IoErrorKind::PermissionDenied),
        (
            ErrorKind::ConnectionRefused,
            IoErrorKind::ConnectionRefused,
        ),
        (ErrorKind::ConnectionReset, IoErrorKind::ConnectionReset),
        (
            ErrorKind::ConnectionAborted,
            IoErrorKind::ConnectionAborted,
        ),
        (ErrorKind::NotConnected, IoErrorKind::NotConnected),
        (ErrorKind::AddrInUse, IoErrorKind::AddrInUse),
        (ErrorKind::AddrNotAvailable, IoErrorKind::AddrNotAvailable),
        (ErrorKind::BrokenPipe, IoErrorKind::BrokenPipe),
        (ErrorKind::AlreadyExists, IoErrorKind::AlreadyExists),
        (ErrorKind::WouldBlock, IoErrorKind::WouldBlock),
        (ErrorKind::InvalidInput, IoErrorKind::InvalidInput),
        (ErrorKind::InvalidData, IoErrorKind::InvalidData),
        (ErrorKind::TimedOut, IoErrorKind::TimedOut),
        (ErrorKind::WriteZero, IoErrorKind::WriteZero),
        (ErrorKind::Interrupted, IoErrorKind::Interrupted),
        (ErrorKind::Other, IoErrorKind::Other),
        (ErrorKind::UnexpectedEof, IoErrorKind::UnexpectedEof),
        (ErrorKind::Unsupported, IoErrorKind::Unsupported),
        (ErrorKind::OutOfMemory, IoErrorKind::OutOfMemory),
    ];

    for &(error_kind, io_kind) in pairs {
        // ErrorKind -> IoErrorKind
        let converted_io: IoErrorKind = error_kind.into();
        assert_eq!(
            converted_io, io_kind,
            "ErrorKind::{error_kind:?} -> IoErrorKind failed"
        );

        // IoErrorKind -> ErrorKind
        let converted_back: ErrorKind = io_kind.into();
        assert_eq!(
            converted_back, error_kind,
            "IoErrorKind -> ErrorKind::{error_kind:?} failed"
        );
    }
}

#[test]
fn variants_without_io_mapping_should_convert_to_io_other() {
    let unmapped = [
        ErrorKind::Loop,
        ErrorKind::TaskCancelled,
        ErrorKind::TaskPanicked,
        ErrorKind::Unknown,
    ];
    for kind in unmapped {
        let io_kind: IoErrorKind = kind.into();
        assert_eq!(
            io_kind,
            IoErrorKind::Other,
            "ErrorKind::{kind:?} should map to IoErrorKind::Other"
        );
    }
}

#[test]
fn from_str_should_create_error_with_other_kind() {
    let error = Error::from("something failed");
    assert_eq!(error.kind, ErrorKind::Other);
    assert_eq!(error.description, "something failed");
}

#[test]
fn from_string_should_create_error_with_other_kind() {
    let error = Error::from(String::from("something failed"));
    assert_eq!(error.kind, ErrorKind::Other);
    assert_eq!(error.description, "something failed");
}

#[test]
fn display_should_show_kind_and_description() {
    let error = Error {
        kind: ErrorKind::NotFound,
        description: "file not found".to_string(),
    };
    let displayed = error.to_string();
    assert!(displayed.contains("NotFound"));
    assert!(displayed.contains("file not found"));
}


#[test]
fn uncategorized_io_kind_becomes_unknown() {
    let kind: ErrorKind = IoErrorKind::Uncategorized.into();
    assert_eq!(kind, ErrorKind::Unknown);
}

#[test]
fn error_kind_labels_are_variant_names() {
    assert_eq!(ErrorKind::AddrInUse.to_string(), "AddrInUse");
    assert_eq!(ErrorKind::TaskPanicked.to_string(), "TaskPanicked");
}

#[test]
fn error_text_joins_kind_and_description() {
    let error = Error { kind: ErrorKind::TimedOut, description: "deadline exceeded".to_string() };
    assert_eq!(error.to_string(), "TimedOut: deadline exceeded");
}
