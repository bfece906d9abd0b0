//! The general purpose error sent across the wire, its kinds, and how they correspond to the
//! kinds of I/O error of the standard library.
use vstd::prelude::*;

use crate::text::{copy_str, push_str};

verus! {

broadcast use vstd::string::group_string_axioms;

/// General purpose error type that can be sent across the wire
#[derive(Clone, Debug, PartialEq, Eq)]
pub struct Error {
    /// Label describing the kind of error
    pub kind: ErrorKind,
    /// Description of the error itself
    pub description: String,
}

/// All possible kinds of errors that can be returned
#[derive(Copy, Clone, Debug, PartialEq, Eq, Structural)]
pub enum ErrorKind {
    /// An entity was not found, often a file
    NotFound,
    /// The operation lacked the necessary privileges to complete
    PermissionDenied,
    /// The connection was refused by the remote server
    ConnectionRefused,
    /// The connection was reset by the remote server
    ConnectionReset,
    /// The connection was aborted (terminated) by the remote server
    ConnectionAborted,
    /// The network operation failed because it was not connected yet
    NotConnected,
    /// A socket address could not be bound because the address is already in use elsewhere
    AddrInUse,
    /// A nonexistent interface was requested or the requested address was not local
    AddrNotAvailable,
    /// The operation failed because a pipe was closed
    BrokenPipe,
    /// An entity already exists, often a file
    AlreadyExists,
    /// The operation needs to block to complete, but the blocking operation was requested to not
    /// occur
    WouldBlock,
    /// A parameter was incorrect
    InvalidInput,
    /// Data not valid for the operation were encountered
    InvalidData,
    /// The I/O operation's timeout expired, causing it to be cancelled
    TimedOut,
    /// An error returned when an operation could not be completed because a
    /// call to `write` returned `Ok(0)`
    WriteZero,
    /// This operation was interrupted
    Interrupted,
    /// Any I/O error not part of this list
    Other,
    /// An error returned when an operation could not be completed because an "end of file" was
    /// reached prematurely
    UnexpectedEof,
    /// This operation is unsupported on this platform
    Unsupported,
    /// An operation could not be completed, because it failed to allocate enough memory
    OutOfMemory,
    /// When a loop is encountered when walking a directory
    Loop,
    /// When a task is cancelled
    TaskCancelled,
    /// When a task panics
    TaskPanicked,
    /// Catchall for an error that has no specific type
    Unknown,
}

/// The kinds of I/O error that the standard library distinguishes (`std::io::ErrorKind`), as
/// plain values; `Uncategorized` stands for every kind of the standard library not listed here.
#[derive(Copy, Clone, Debug, PartialEq, Eq, Structural)]
pub enum IoErrorKind {
    NotFound,
    PermissionDenied,
    ConnectionRefused,
    ConnectionReset,
    ConnectionAborted,
    NotConnected,
    AddrInUse,
    AddrNotAvailable,
    BrokenPipe,
    AlreadyExists,
    WouldBlock,
    InvalidInput,
    InvalidData,
    TimedOut,
    WriteZero,
    Interrupted,
    Other,
    OutOfMemory,
    UnexpectedEof,
    Unsupported,
    Uncategorized,
}

/// The I/O error kind that an error kind stands for; kinds with no counterpart stand for
/// `Other`.
pub open spec fn io_kind_of(kind: ErrorKind) -> IoErrorKind {
    match kind {
        ErrorKind::NotFound => IoErrorKind::NotFound,
        ErrorKind::PermissionDenied => IoErrorKind::PermissionDenied,
        ErrorKind::ConnectionRefused => IoErrorKind::ConnectionRefused,
        ErrorKind::ConnectionReset => IoErrorKind::ConnectionReset,
        ErrorKind::ConnectionAborted => IoErrorKind::ConnectionAborted,
        ErrorKind::NotConnected => IoErrorKind::NotConnected,
        ErrorKind::AddrInUse => IoErrorKind::AddrInUse,
        ErrorKind::AddrNotAvailable => IoErrorKind::AddrNotAvailable,
        ErrorKind::BrokenPipe => IoErrorKind::BrokenPipe,
        ErrorKind::AlreadyExists => IoErrorKind::AlreadyExists,
        ErrorKind::WouldBlock => IoErrorKind::WouldBlock,
        ErrorKind::InvalidInput => IoErrorKind::InvalidInput,
        ErrorKind::InvalidData => IoErrorKind::InvalidData,
        ErrorKind::TimedOut => IoErrorKind::TimedOut,
        ErrorKind::WriteZero => IoErrorKind::WriteZero,
        ErrorKind::Interrupted => IoErrorKind::Interrupted,
        ErrorKind::Other => IoErrorKind::Other,
        ErrorKind::OutOfMemory => IoErrorKind::OutOfMemory,
        ErrorKind::UnexpectedEof => IoErrorKind::UnexpectedEof,
        ErrorKind::Unsupported => IoErrorKind::Unsupported,
        _ => IoErrorKind::Other,
    }
}

/// The error kind that an I/O error kind stands for; uncategorized kinds are `Unknown`.
pub open spec fn kind_of_io(kind: IoErrorKind) -> ErrorKind {
    match kind {
        IoErrorKind::NotFound => ErrorKind::NotFound,
        IoErrorKind::PermissionDenied => ErrorKind::PermissionDenied,
        IoErrorKind::ConnectionRefused => ErrorKind::ConnectionRefused,
        IoErrorKind::ConnectionReset => ErrorKind::ConnectionReset,
        IoErrorKind::ConnectionAborted => ErrorKind::ConnectionAborted,
        IoErrorKind::NotConnected => ErrorKind::NotConnected,
        IoErrorKind::AddrInUse => ErrorKind::AddrInUse,
        IoErrorKind::AddrNotAvailable => ErrorKind::AddrNotAvailable,
        IoErrorKind::BrokenPipe => ErrorKind::BrokenPipe,
        IoErrorKind::AlreadyExists => ErrorKind::AlreadyExists,
        IoErrorKind::WouldBlock => ErrorKind::WouldBlock,
        IoErrorKind::InvalidInput => ErrorKind::InvalidInput,
        IoErrorKind::InvalidData => ErrorKind::InvalidData,
        IoErrorKind::TimedOut => ErrorKind::TimedOut,
        IoErrorKind::WriteZero => ErrorKind::WriteZero,
        IoErrorKind::Interrupted => ErrorKind::Interrupted,
        IoErrorKind::Other => ErrorKind::Other,
        IoErrorKind::OutOfMemory => ErrorKind::OutOfMemory,
        IoErrorKind::UnexpectedEof => ErrorKind::UnexpectedEof,
        IoErrorKind::Unsupported => ErrorKind::Unsupported,
        IoErrorKind::Uncategorized => ErrorKind::Unknown,
    }
}

/// The name of an error kind, as it is displayed.
pub open spec fn kind_label(kind: ErrorKind) -> Seq<char> {
    match kind {
        ErrorKind::NotFound => "NotFound"@,
        ErrorKind::PermissionDenied => "PermissionDenied"@,
        ErrorKind::ConnectionRefused => "ConnectionRefused"@,
        ErrorKind::ConnectionReset => "ConnectionReset"@,
        ErrorKind::ConnectionAborted => "ConnectionAborted"@,
        ErrorKind::NotConnected => "NotConnected"@,
        ErrorKind::AddrInUse => "AddrInUse"@,
        ErrorKind::AddrNotAvailable => "AddrNotAvailable"@,
        ErrorKind::BrokenPipe => "BrokenPipe"@,
        ErrorKind::AlreadyExists => "AlreadyExists"@,
        ErrorKind::WouldBlock => "WouldBlock"@,
        ErrorKind::InvalidInput => "InvalidInput"@,
        ErrorKind::InvalidData => "InvalidData"@,
        ErrorKind::TimedOut => "TimedOut"@,
        ErrorKind::WriteZero => "WriteZero"@,
        ErrorKind::Interrupted => "Interrupted"@,
        ErrorKind::Other => "Other"@,
        ErrorKind::UnexpectedEof => "UnexpectedEof"@,
        ErrorKind::Unsupported => "Unsupported"@,
        ErrorKind::OutOfMemory => "OutOfMemory"@,
        ErrorKind::Loop => "Loop"@,
        ErrorKind::TaskCancelled => "TaskCancelled"@,
        ErrorKind::TaskPanicked => "TaskPanicked"@,
        ErrorKind::Unknown => "Unknown"@,
    }
}

impl ErrorKind {
    /// The I/O error kind that this kind stands for.
    pub fn to_io_kind(self) -> (r: IoErrorKind)
        ensures
            r == io_kind_of(self),
    {
        match self {
            ErrorKind::NotFound => IoErrorKind::NotFound,
            ErrorKind::PermissionDenied => IoErrorKind::PermissionDenied,
            ErrorKind::ConnectionRefused => IoErrorKind::ConnectionRefused,
            ErrorKind::ConnectionReset => IoErrorKind::ConnectionReset,
            ErrorKind::ConnectionAborted => IoErrorKind::ConnectionAborted,
            ErrorKind::NotConnected => IoErrorKind::NotConnected,
            ErrorKind::AddrInUse => IoErrorKind::AddrInUse,
            ErrorKind::AddrNotAvailable => IoErrorKind::AddrNotAvailable,
            ErrorKind::BrokenPipe => IoErrorKind::BrokenPipe,
            ErrorKind::AlreadyExists => IoErrorKind::AlreadyExists,
            ErrorKind::WouldBlock => IoErrorKind::WouldBlock,
            ErrorKind::InvalidInput => IoErrorKind::InvalidInput,
            ErrorKind::InvalidData => IoErrorKind::InvalidData,
            ErrorKind::TimedOut => IoErrorKind::TimedOut,
            ErrorKind::WriteZero => IoErrorKind::WriteZero,
            ErrorKind::Interrupted => IoErrorKind::Interrupted,
            ErrorKind::Other => IoErrorKind::Other,
            ErrorKind::OutOfMemory => IoErrorKind::OutOfMemory,
            ErrorKind::UnexpectedEof => IoErrorKind::UnexpectedEof,
            ErrorKind::Unsupported => IoErrorKind::Unsupported,
            _ => IoErrorKind::Other,
        }
    }

    /// The error kind that an I/O error kind stands for.
    pub fn from_io_kind(kind: IoErrorKind) -> (r: ErrorKind)
        ensures
            r == kind_of_io(kind),
    {
        match kind {
            IoErrorKind::NotFound => ErrorKind::NotFound,
            IoErrorKind::PermissionDenied => ErrorKind::PermissionDenied,
            IoErrorKind::ConnectionRefused => ErrorKind::ConnectionRefused,
            IoErrorKind::ConnectionReset => ErrorKind::ConnectionReset,
            IoErrorKind::ConnectionAborted => ErrorKind::ConnectionAborted,
            IoErrorKind::NotConnected => ErrorKind::NotConnected,
            IoErrorKind::AddrInUse => ErrorKind::AddrInUse,
            IoErrorKind::AddrNotAvailable => ErrorKind::AddrNotAvailable,
            IoErrorKind::BrokenPipe => ErrorKind::BrokenPipe,
            IoErrorKind::AlreadyExists => ErrorKind::AlreadyExists,
            IoErrorKind::WouldBlock => ErrorKind::WouldBlock,
            IoErrorKind::InvalidInput => ErrorKind::InvalidInput,
            IoErrorKind::InvalidData => ErrorKind::InvalidData,
            IoErrorKind::TimedOut => ErrorKind::TimedOut,
            IoErrorKind::WriteZero => ErrorKind::WriteZero,
            IoErrorKind::Interrupted => ErrorKind::Interrupted,
            IoErrorKind::Other => ErrorKind::Other,
            IoErrorKind::OutOfMemory => ErrorKind::OutOfMemory,
            IoErrorKind::UnexpectedEof => ErrorKind::UnexpectedEof,
            IoErrorKind::Unsupported => ErrorKind::Unsupported,
            IoErrorKind::Uncategorized => ErrorKind::Unknown,
        }
    }

    /// The name of this kind, as it is displayed.
    pub fn label(&self) -> (r: &'static str)
        ensures
            r@ == kind_label(*self),
    {
        match self {
            ErrorKind::NotFound => "NotFound",
            ErrorKind::PermissionDenied => "PermissionDenied",
            ErrorKind::ConnectionRefused => "ConnectionRefused",
            ErrorKind::ConnectionReset => "ConnectionReset",
            ErrorKind::ConnectionAborted => "ConnectionAborted",
            ErrorKind::NotConnected => "NotConnected",
            ErrorKind::AddrInUse => "AddrInUse",
            ErrorKind::AddrNotAvailable => "AddrNotAvailable",
            ErrorKind::BrokenPipe => "BrokenPipe",
            ErrorKind::AlreadyExists => "AlreadyExists",
            ErrorKind::WouldBlock => "WouldBlock",
            ErrorKind::InvalidInput => "InvalidInput",
            ErrorKind::InvalidData => "InvalidData",
            ErrorKind::TimedOut => "TimedOut",
            ErrorKind::WriteZero => "WriteZero",
            ErrorKind::Interrupted => "Interrupted",
            ErrorKind::Other => "Other",
            ErrorKind::UnexpectedEof => "UnexpectedEof",
            ErrorKind::Unsupported => "Unsupported",
            ErrorKind::OutOfMemory => "OutOfMemory",
            ErrorKind::Loop => "Loop",
            ErrorKind::TaskCancelled => "TaskCancelled",
            ErrorKind::TaskPanicked => "TaskPanicked",
            ErrorKind::Unknown => "Unknown",
        }
    }

    /// The name of this kind, as a new string.
    pub fn to_string(&self) -> (r: String)
        ensures
            r@ == kind_label(*self),
    {
        copy_str(self.label())
    }
}

impl From<IoErrorKind> for ErrorKind {
    fn from(kind: IoErrorKind) -> (r: ErrorKind)
        ensures
            r == kind_of_io(kind),
    {
        ErrorKind::from_io_kind(kind)
    }
}

impl vstd::std_specs::convert::FromSpecImpl<IoErrorKind> for ErrorKind {
    open spec fn obeys_from_spec() -> bool {
        true
    }

    open spec fn from_spec(kind: IoErrorKind) -> ErrorKind {
        kind_of_io(kind)
    }
}

impl From<ErrorKind> for IoErrorKind {
    fn from(kind: ErrorKind) -> (r: IoErrorKind)
        ensures
            r == io_kind_of(kind),
    {
        kind.to_io_kind()
    }
}

impl vstd::std_specs::convert::FromSpecImpl<ErrorKind> for IoErrorKind {
    open spec fn obeys_from_spec() -> bool {
        true
    }

    open spec fn from_spec(kind: ErrorKind) -> IoErrorKind {
        io_kind_of(kind)
    }
}

/// Whether an error kind has a counterpart among the I/O error kinds.
pub open spec fn has_io_counterpart(kind: ErrorKind) -> bool {
    !(kind == ErrorKind::Loop || kind == ErrorKind::TaskCancelled || kind == ErrorKind::TaskPanicked
        || kind == ErrorKind::Unknown)
}

/// An error kind with an I/O counterpart comes back from it unchanged, and one without it turns
/// into `Other`.
pub proof fn lemma_kind_io_roundtrip(kind: ErrorKind)
    ensures
        has_io_counterpart(kind) ==> kind_of_io(io_kind_of(kind)) == kind,
        !has_io_counterpart(kind) ==> io_kind_of(kind) == IoErrorKind::Other,
{
}

/// An I/O error kind that is categorized comes back from its error kind unchanged.
pub proof fn lemma_io_kind_roundtrip(kind: IoErrorKind)
    ensures
        kind != IoErrorKind::Uncategorized ==> io_kind_of(kind_of_io(kind)) == kind,
        kind == IoErrorKind::Uncategorized ==> kind_of_io(kind) == ErrorKind::Unknown,
{
}

impl Error {
    /// The text of the error: the name of its kind, a colon and a space, and its description.
    pub fn to_string(&self) -> (r: String)
        ensures
            r@ == kind_label(self.kind) + ": "@ + self.description@,
    {
        let mut s = copy_str(self.kind.label());
        push_str(&mut s, ": ");
        push_str(&mut s, self.description.as_str());
        s
    }
}

impl<'a> From<&'a str> for Error {
    fn from(x: &'a str) -> (r: Error)
        ensures
            r.kind == ErrorKind::Other,
            r.description@ == x@,
    {
        Error::from(copy_str(x))
    }
}

impl<'a> vstd::std_specs::convert::FromSpecImpl<&'a str> for Error {
    /// Strings with the same characters are not known to be one value, so the result is
    /// described by the `ensures` of `from` alone.
    open spec fn obeys_from_spec() -> bool {
        false
    }

    open spec fn from_spec(x: &'a str) -> Error {
        choose|e: Error| e.kind == ErrorKind::Other && e.description@ == x@
    }
}

impl From<String> for Error {
    fn from(x: String) -> (r: Error)
        ensures
            r == (Error { kind: ErrorKind::Other, description: x }),
    {
        Error { kind: ErrorKind::Other, description: x }
    }
}

impl vstd::std_specs::convert::FromSpecImpl<String> for Error {
    open spec fn obeys_from_spec() -> bool {
        true
    }

    open spec fn from_spec(x: String) -> Error {
        Error { kind: ErrorKind::Other, description: x }
    }
}


/// The name of an I/O error kind: the name of its variant.
pub open spec fn io_kind_name(kind: IoErrorKind) -> Seq<char> {
    match kind {
        IoErrorKind::NotFound => "NotFound"@,
        IoErrorKind::PermissionDenied => "PermissionDenied"@,
        IoErrorKind::ConnectionRefused => "ConnectionRefused"@,
        IoErrorKind::ConnectionReset => "ConnectionReset"@,
        IoErrorKind::ConnectionAborted => "ConnectionAborted"@,
        IoErrorKind::NotConnected => "NotConnected"@,
        IoErrorKind::AddrInUse => "AddrInUse"@,
        IoErrorKind::AddrNotAvailable => "AddrNotAvailable"@,
        IoErrorKind::BrokenPipe => "BrokenPipe"@,
        IoErrorKind::AlreadyExists => "AlreadyExists"@,
        IoErrorKind::WouldBlock => "WouldBlock"@,
        IoErrorKind::InvalidInput => "InvalidInput"@,
        IoErrorKind::InvalidData => "InvalidData"@,
        IoErrorKind::TimedOut => "TimedOut"@,
        IoErrorKind::WriteZero => "WriteZero"@,
        IoErrorKind::Interrupted => "Interrupted"@,
        IoErrorKind::Other => "Other"@,
        IoErrorKind::OutOfMemory => "OutOfMemory"@,
        IoErrorKind::UnexpectedEof => "UnexpectedEof"@,
        IoErrorKind::Unsupported => "Unsupported"@,
        IoErrorKind::Uncategorized => "Uncategorized"@,
    }
}

/// An error kind and the I/O error kind it stands for are named alike, both ways: an error kind
/// with an I/O counterpart stands for the I/O kind of its own name, and a categorized I/O kind
/// stands for the error kind of its own name; an I/O kind of no category is `Unknown`.
pub proof fn lemma_kinds_named_alike(kind: ErrorKind, io: IoErrorKind)
    ensures
        has_io_counterpart(kind) ==> io_kind_name(io_kind_of(kind)) == kind_label(kind),
        io != IoErrorKind::Uncategorized ==> kind_label(kind_of_io(io)) == io_kind_name(io),
        io == IoErrorKind::Uncategorized ==> kind_of_io(io) == ErrorKind::Unknown,
{
}

} // verus!
