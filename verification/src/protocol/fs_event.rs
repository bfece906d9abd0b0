//! Kinds of filesystem event as a filesystem watcher reports them, held as plain values.
use vstd::prelude::*;

verus! {

/// The mode in which a file was opened or closed.
#[derive(Copy, Clone, Debug, Hash, PartialEq, Eq, Structural)]
pub enum AccessMode {
    /// The catch-all case, to be used when the specific kind of event is unknown.
    Any,
    /// An event emitted when the file is executed, or the folder opened.
    Execute,
    /// An event emitted when the file is opened for reading.
    Read,
    /// An event emitted when the file is opened for writing.
    Write,
    /// An event which specific kind is known but cannot be represented otherwise.
    Other,
}

/// An event describing non-mutating access operations on files.
#[derive(Copy, Clone, Debug, Hash, PartialEq, Eq, Structural)]
pub enum AccessKind {
    /// The catch-all case, to be used when the specific kind of event is unknown.
    Any,
    /// An event emitted when the file is read.
    Read,
    /// An event emitted when the file, or a handle to the file, is opened.
    Open(AccessMode),
    /// An event emitted when the file, or a handle to the file, is closed.
    Close(AccessMode),
    /// An event which specific kind is known but cannot be represented otherwise.
    Other,
}

/// An event describing creation operations on files.
#[derive(Copy, Clone, Debug, Hash, PartialEq, Eq, Structural)]
pub enum CreateKind {
    /// The catch-all case, to be used when the specific kind of event is unknown.
    Any,
    /// An event which results in the creation of a file.
    File,
    /// An event which results in the creation of a folder.
    Folder,
    /// An event which specific kind is known but cannot be represented otherwise.
    Other,
}

/// An event emitted when the data content of a file is changed.
#[derive(Copy, Clone, Debug, Hash, PartialEq, Eq, Structural)]
pub enum DataChange {
    /// The catch-all case, to be used when the specific kind of event is unknown.
    Any,
    /// An event emitted when the size of the data is changed.
    Size,
    /// An event emitted when the content of the data is changed.
    Content,
    /// An event which specific kind is known but cannot be represented otherwise.
    Other,
}

/// An event emitted when the metadata of a file or folder is changed.
#[derive(Copy, Clone, Debug, Hash, PartialEq, Eq, Structural)]
pub enum MetadataKind {
    /// The catch-all case, to be used when the specific kind of event is unknown.
    Any,
    /// An event emitted when the access time of the file or folder is changed.
    AccessTime,
    /// An event emitted when the write or modify time of the file or folder is changed.
    WriteTime,
    /// An event emitted when the permissions of the file or folder are changed.
    Permissions,
    /// An event emitted when the ownership of the file or folder is changed.
    Ownership,
    /// An event emitted when an extended attribute of the file or folder is changed.
    Extended,
    /// An event which specific kind is known but cannot be represented otherwise.
    Other,
}

/// An event emitted when the name of a file or folder is changed.
#[derive(Copy, Clone, Debug, Hash, PartialEq, Eq, Structural)]
pub enum RenameMode {
    /// The catch-all case, to be used when the specific kind of event is unknown.
    Any,
    /// An event emitted on the file or folder resulting from a rename.
    To,
    /// An event emitted on the file or folder that was renamed.
    From,
    /// A single event emitted with both the `From` and `To` paths.
    Both,
    /// An event which specific kind is known but cannot be represented otherwise.
    Other,
}

/// An event describing mutation of content, name, or metadata.
#[derive(Copy, Clone, Debug, Hash, PartialEq, Eq, Structural)]
pub enum ModifyKind {
    /// The catch-all case, to be used when the specific kind of event is unknown.
    Any,
    /// An event emitted when the data content of a file is changed.
    Data(DataChange),
    /// An event emitted when the metadata of a file or folder is changed.
    Metadata(MetadataKind),
    /// An event emitted when the name of a file or folder is changed.
    Name(RenameMode),
    /// An event which specific kind is known but cannot be represented otherwise.
    Other,
}

/// An event describing removal operations on files.
#[derive(Copy, Clone, Debug, Hash, PartialEq, Eq, Structural)]
pub enum RemoveKind {
    /// The catch-all case, to be used when the specific kind of event is unknown.
    Any,
    /// An event emitted when a file is removed.
    File,
    /// An event emitted when a folder is removed.
    Folder,
    /// An event which specific kind is known but cannot be represented otherwise.
    Other,
}

/// Top-level event kind.
#[derive(Copy, Clone, Debug, Hash, PartialEq, Eq, Structural)]
pub enum EventKind {
    /// The catch-all event kind, for unsupported/unknown events.
    Any,
    /// An event describing non-mutating access operations on files.
    Access(AccessKind),
    /// An event describing creation operations on files.
    Create(CreateKind),
    /// An event describing mutation of content, name, or metadata.
    Modify(ModifyKind),
    /// An event describing removal operations on files.
    Remove(RemoveKind),
    /// An event not fitting in any of the above four categories.
    Other,
}

} // verus!
