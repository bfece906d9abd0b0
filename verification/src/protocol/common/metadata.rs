//! Metadata about paths on a remote machine, with the unix permission bits and windows
//! file attributes it carries.
use vstd::prelude::*;

use crate::std_types::PathBuf;

verus! {

/// Represents the type associated with a dir entry.
#[derive(Copy, Clone, Debug, PartialEq, Eq, Hash, Structural)]
pub enum FileType {
    Dir,
    File,
    Symlink,
}

/// Represents metadata about some path on a remote machine.
#[derive(Clone, Debug, PartialEq, Eq)]
pub struct Metadata {
    /// Canonicalized path to the file or directory, resolving symlinks, only included if flagged
    /// during the request.
    pub canonicalized_path: Option<PathBuf>,
    /// Represents the type of the entry as a file/dir/symlink.
    pub file_type: FileType,
    /// Size of the file/directory/symlink in bytes.
    pub len: u64,
    /// Whether or not the file/directory/symlink is marked as unwriteable.
    pub readonly: bool,
    /// Represents the last time (in seconds) when the file/directory/symlink was accessed;
    /// can be optional as certain systems don't support this.
    pub accessed: Option<u64>,
    /// Represents when (in seconds) the file/directory/symlink was created;
    /// can be optional as certain systems don't support this.
    pub created: Option<u64>,
    /// Represents the last time (in seconds) when the file/directory/symlink was modified;
    /// can be optional as certain systems don't support this.
    pub modified: Option<u64>,
    /// Represents metadata that is specific to a unix remote machine.
    pub unix: Option<UnixMetadata>,
    /// Represents metadata that is specific to a windows remote machine.
    pub windows: Option<WindowsMetadata>,
}

/// Represents unix-specific metadata about some path on a remote machine.
#[derive(Copy, Clone, Debug, PartialEq, Eq, Structural)]
pub struct UnixMetadata {
    /// Represents whether or not owner can read from the file.
    pub owner_read: bool,
    /// Represents whether or not owner can write to the file.
    pub owner_write: bool,
    /// Represents whether or not owner can execute the file.
    pub owner_exec: bool,
    /// Represents whether or not associated group can read from the file.
    pub group_read: bool,
    /// Represents whether or not associated group can write to the file.
    pub group_write: bool,
    /// Represents whether or not associated group can execute the file.
    pub group_exec: bool,
    /// Represents whether or not other can read from the file.
    pub other_read: bool,
    /// Represents whether or not other can write to the file.
    pub other_write: bool,
    /// Represents whether or not other can execute the file.
    pub other_exec: bool,
}

/// The unix permissions held in a bitset: each flag whose bit is set.
pub open spec fn unix_metadata_of(bits: u32) -> UnixMetadata {
    UnixMetadata {
        owner_read: bits & 0o400 != 0,
        owner_write: bits & 0o200 != 0,
        owner_exec: bits & 0o100 != 0,
        group_read: bits & 0o40 != 0,
        group_write: bits & 0o20 != 0,
        group_exec: bits & 0o10 != 0,
        other_read: bits & 0o4 != 0,
        other_write: bits & 0o2 != 0,
        other_exec: bits & 0o1 != 0,
    }
}

/// The bitset with the bit of each flag of `m` that is set.
pub open spec fn unix_mode_bits(m: UnixMetadata) -> u32 {
    (if m.owner_read { 0o400u32 } else { 0u32 })
        | (if m.owner_write { 0o200u32 } else { 0u32 })
        | (if m.owner_exec { 0o100u32 } else { 0u32 })
        | (if m.group_read { 0o40u32 } else { 0u32 })
        | (if m.group_write { 0o20u32 } else { 0u32 })
        | (if m.group_exec { 0o10u32 } else { 0u32 })
        | (if m.other_read { 0o4u32 } else { 0u32 })
        | (if m.other_write { 0o2u32 } else { 0u32 })
        | (if m.other_exec { 0o1u32 } else { 0u32 })
}

impl From<u32> for UnixMetadata {
    /// Create from a unix mode bitset
    fn from(bits: u32) -> (r: UnixMetadata)
        ensures
            r == unix_metadata_of(bits),
    {
        UnixMetadata {
            owner_read: bits & 0o400 != 0,
            owner_write: bits & 0o200 != 0,
            owner_exec: bits & 0o100 != 0,
            group_read: bits & 0o40 != 0,
            group_write: bits & 0o20 != 0,
            group_exec: bits & 0o10 != 0,
            other_read: bits & 0o4 != 0,
            other_write: bits & 0o2 != 0,
            other_exec: bits & 0o1 != 0,
        }
    }
}

impl vstd::std_specs::convert::FromSpecImpl<u32> for UnixMetadata {
    open spec fn obeys_from_spec() -> bool {
        true
    }

    open spec fn from_spec(bits: u32) -> UnixMetadata {
        unix_metadata_of(bits)
    }
}

impl From<UnixMetadata> for u32 {
    /// Convert to a unix mode bitset.
    fn from(m: UnixMetadata) -> (r: u32)
        ensures
            r == unix_mode_bits(m),
    {
        let owner_read: u32 = if m.owner_read {
            0o400
        } else {
            0
        };
        let owner_write: u32 = if m.owner_write {
            0o200
        } else {
            0
        };
        let owner_exec: u32 = if m.owner_exec {
            0o100
        } else {
            0
        };
        let group_read: u32 = if m.group_read {
            0o40
        } else {
            0
        };
        let group_write: u32 = if m.group_write {
            0o20
        } else {
            0
        };
        let group_exec: u32 = if m.group_exec {
            0o10
        } else {
            0
        };
        let other_read: u32 = if m.other_read {
            0o4
        } else {
            0
        };
        let other_write: u32 = if m.other_write {
            0o2
        } else {
            0
        };
        let other_exec: u32 = if m.other_exec {
            0o1
        } else {
            0
        };
        owner_read
            | owner_write
            | owner_exec
            | group_read
            | group_write
            | group_exec
            | other_read
            | other_write
            | other_exec
    }
}

impl vstd::std_specs::convert::FromSpecImpl<UnixMetadata> for u32 {
    open spec fn obeys_from_spec() -> bool {
        true
    }

    open spec fn from_spec(m: UnixMetadata) -> u32 {
        unix_mode_bits(m)
    }
}

/// Turning unix metadata into a mode and back gives the same metadata.
pub proof fn lemma_unix_bits_roundtrip(m: UnixMetadata)
    ensures
        unix_metadata_of(unix_mode_bits(m)) == m,
{
    let owner_read = m.owner_read;
    let owner_write = m.owner_write;
    let owner_exec = m.owner_exec;
    let group_read = m.group_read;
    let group_write = m.group_write;
    let group_exec = m.group_exec;
    let other_read = m.other_read;
    let other_write = m.other_write;
    let other_exec = m.other_exec;
    let bits = (if owner_read { 0o400u32 } else { 0u32 })
        | (if owner_write { 0o200u32 } else { 0u32 })
        | (if owner_exec { 0o100u32 } else { 0u32 })
        | (if group_read { 0o40u32 } else { 0u32 })
        | (if group_write { 0o20u32 } else { 0u32 })
        | (if group_exec { 0o10u32 } else { 0u32 })
        | (if other_read { 0o4u32 } else { 0u32 })
        | (if other_write { 0o2u32 } else { 0u32 })
        | (if other_exec { 0o1u32 } else { 0u32 });
    assert((bits & 0o400 != 0) == owner_read &&
        (bits & 0o200 != 0) == owner_write &&
        (bits & 0o100 != 0) == owner_exec &&
        (bits & 0o40 != 0) == group_read &&
        (bits & 0o20 != 0) == group_write &&
        (bits & 0o10 != 0) == group_exec &&
        (bits & 0o4 != 0) == other_read &&
        (bits & 0o2 != 0) == other_write &&
        (bits & 0o1 != 0) == other_exec) by (bit_vector)
        requires
            bits == (if owner_read { 0o400u32 } else { 0u32 })
                | (if owner_write { 0o200u32 } else { 0u32 })
                | (if owner_exec { 0o100u32 } else { 0u32 })
                | (if group_read { 0o40u32 } else { 0u32 })
                | (if group_write { 0o20u32 } else { 0u32 })
                | (if group_exec { 0o10u32 } else { 0u32 })
                | (if other_read { 0o4u32 } else { 0u32 })
                | (if other_write { 0o2u32 } else { 0u32 })
                | (if other_exec { 0o1u32 } else { 0u32 }),
    ;
}

/// Turning a mode into unix metadata and back keeps its permission bits and drops the others.
pub proof fn lemma_unix_value_roundtrip(bits: u32)
    ensures
        unix_mode_bits(unix_metadata_of(bits)) == bits & 0o777,
{
    assert((if bits & 0o400 != 0 { 0o400u32 } else { 0u32 })
        | (if bits & 0o200 != 0 { 0o200u32 } else { 0u32 })
        | (if bits & 0o100 != 0 { 0o100u32 } else { 0u32 })
        | (if bits & 0o40 != 0 { 0o40u32 } else { 0u32 })
        | (if bits & 0o20 != 0 { 0o20u32 } else { 0u32 })
        | (if bits & 0o10 != 0 { 0o10u32 } else { 0u32 })
        | (if bits & 0o4 != 0 { 0o4u32 } else { 0u32 })
        | (if bits & 0o2 != 0 { 0o2u32 } else { 0u32 })
        | (if bits & 0o1 != 0 { 0o1u32 } else { 0u32 }) == bits & 0o777) by (bit_vector);
}

/// Each permission of unix metadata reads its documented mode bit: read, write and execute are
/// `4`, `2` and `1` of the owner's octal digit (`0o700`), the group's (`0o70`) and the others'
/// (`0o7`); the mode of metadata holds exactly the bit of each permission that is set, and no
/// other bit.
pub proof fn lemma_unix_permission_bits(bits: u32, m: UnixMetadata)
    ensures
        unix_metadata_of(bits).owner_read == (bits & 0o400 != 0),
        unix_metadata_of(bits).owner_write == (bits & 0o200 != 0),
        unix_metadata_of(bits).owner_exec == (bits & 0o100 != 0),
        unix_metadata_of(bits).group_read == (bits & 0o40 != 0),
        unix_metadata_of(bits).group_write == (bits & 0o20 != 0),
        unix_metadata_of(bits).group_exec == (bits & 0o10 != 0),
        unix_metadata_of(bits).other_read == (bits & 0o4 != 0),
        unix_metadata_of(bits).other_write == (bits & 0o2 != 0),
        unix_metadata_of(bits).other_exec == (bits & 0o1 != 0),
        (unix_mode_bits(m) & 0o400 != 0) == m.owner_read,
        (unix_mode_bits(m) & 0o200 != 0) == m.owner_write,
        (unix_mode_bits(m) & 0o100 != 0) == m.owner_exec,
        (unix_mode_bits(m) & 0o40 != 0) == m.group_read,
        (unix_mode_bits(m) & 0o20 != 0) == m.group_write,
        (unix_mode_bits(m) & 0o10 != 0) == m.group_exec,
        (unix_mode_bits(m) & 0o4 != 0) == m.other_read,
        (unix_mode_bits(m) & 0o2 != 0) == m.other_write,
        (unix_mode_bits(m) & 0o1 != 0) == m.other_exec,
        unix_mode_bits(m) & !0o777u32 == 0,
{
    lemma_unix_bits_roundtrip(m);
    lemma_unix_value_roundtrip(unix_mode_bits(m));
    let b = unix_mode_bits(m);
    assert(b & 0o777u32 == b ==> b & !0o777u32 == 0) by (bit_vector);
}

impl UnixMetadata {
    /// Whether no one may write to the file.
    pub fn is_readonly(self) -> (r: bool)
        ensures
            r == !(self.owner_write || self.group_write || self.other_write),
    {
        !(self.owner_write || self.group_write || self.other_write)
    }
}

/// Represents windows-specific metadata about some path on a remote machine
#[derive(Copy, Clone, Debug, PartialEq, Eq, Structural)]
pub struct WindowsMetadata {
    /// Represents whether or not a file or directory is an archive
    pub archive: bool,
    /// Represents whether or not a file or directory is compressed
    pub compressed: bool,
    /// Represents whether or not the file or directory is encrypted
    pub encrypted: bool,
    /// Represents whether or not a file or directory is hidden
    pub hidden: bool,
    /// Represents whether or not a directory or user data stream is configured with integrity
    pub integrity_stream: bool,
    /// Represents whether or not a file does not have other attributes set
    pub normal: bool,
    /// Represents whether or not a file or directory is not to be indexed by content indexing
    /// service
    pub not_content_indexed: bool,
    /// Represents whether or not a user data stream is not to be read by the background data
    /// integrity scanner
    pub no_scrub_data: bool,
    /// Represents whether or not the data of a file is not available immediately
    pub offline: bool,
    /// Represents whether or not a file or directory is not fully present locally
    pub recall_on_data_access: bool,
    /// Represents whether or not a file or directory has no physical representation on the local
    /// system (is virtual)
    pub recall_on_open: bool,
    /// Represents whether or not a file or directory has an associated reparse point, or a file is
    /// a symbolic link
    pub reparse_point: bool,
    /// Represents whether or not a file is a sparse file
    pub sparse_file: bool,
    /// Represents whether or not a file or directory is used partially or exclusively by the
    /// operating system
    pub system: bool,
    /// Represents whether or not a file is being used for temporary storage
    pub temporary: bool,
}

/// The windows file attributes held in a bitset: each flag whose bit is set.
pub open spec fn windows_metadata_of(bits: u32) -> WindowsMetadata {
    WindowsMetadata {
        archive: bits & 0x20 != 0,
        compressed: bits & 0x800 != 0,
        encrypted: bits & 0x4000 != 0,
        hidden: bits & 0x2 != 0,
        integrity_stream: bits & 0x8000 != 0,
        normal: bits & 0x80 != 0,
        not_content_indexed: bits & 0x2000 != 0,
        no_scrub_data: bits & 0x20000 != 0,
        offline: bits & 0x1000 != 0,
        recall_on_data_access: bits & 0x400000 != 0,
        recall_on_open: bits & 0x40000 != 0,
        reparse_point: bits & 0x400 != 0,
        sparse_file: bits & 0x200 != 0,
        system: bits & 0x4 != 0,
        temporary: bits & 0x100 != 0,
    }
}

/// The bitset with the bit of each flag of `m` that is set.
pub open spec fn windows_attribute_bits(m: WindowsMetadata) -> u32 {
    (if m.archive { 0x20u32 } else { 0u32 })
        | (if m.compressed { 0x800u32 } else { 0u32 })
        | (if m.encrypted { 0x4000u32 } else { 0u32 })
        | (if m.hidden { 0x2u32 } else { 0u32 })
        | (if m.integrity_stream { 0x8000u32 } else { 0u32 })
        | (if m.normal { 0x80u32 } else { 0u32 })
        | (if m.not_content_indexed { 0x2000u32 } else { 0u32 })
        | (if m.no_scrub_data { 0x20000u32 } else { 0u32 })
        | (if m.offline { 0x1000u32 } else { 0u32 })
        | (if m.recall_on_data_access { 0x400000u32 } else { 0u32 })
        | (if m.recall_on_open { 0x40000u32 } else { 0u32 })
        | (if m.reparse_point { 0x400u32 } else { 0u32 })
        | (if m.sparse_file { 0x200u32 } else { 0u32 })
        | (if m.system { 0x4u32 } else { 0u32 })
        | (if m.temporary { 0x100u32 } else { 0u32 })
}

impl From<u32> for WindowsMetadata {
    /// Create from a windows file attribute bitset
    fn from(bits: u32) -> (r: WindowsMetadata)
        ensures
            r == windows_metadata_of(bits),
    {
        WindowsMetadata {
            archive: bits & 0x20 != 0,
            compressed: bits & 0x800 != 0,
            encrypted: bits & 0x4000 != 0,
            hidden: bits & 0x2 != 0,
            integrity_stream: bits & 0x8000 != 0,
            normal: bits & 0x80 != 0,
            not_content_indexed: bits & 0x2000 != 0,
            no_scrub_data: bits & 0x20000 != 0,
            offline: bits & 0x1000 != 0,
            recall_on_data_access: bits & 0x400000 != 0,
            recall_on_open: bits & 0x40000 != 0,
            reparse_point: bits & 0x400 != 0,
            sparse_file: bits & 0x200 != 0,
            system: bits & 0x4 != 0,
            temporary: bits & 0x100 != 0,
        }
    }
}

impl vstd::std_specs::convert::FromSpecImpl<u32> for WindowsMetadata {
    open spec fn obeys_from_spec() -> bool {
        true
    }

    open spec fn from_spec(bits: u32) -> WindowsMetadata {
        windows_metadata_of(bits)
    }
}

impl From<WindowsMetadata> for u32 {
    /// Convert to a windows file attribute bitset
    fn from(m: WindowsMetadata) -> (r: u32)
        ensures
            r == windows_attribute_bits(m),
    {
        let archive: u32 = if m.archive {
            0x20
        } else {
            0
        };
        let compressed: u32 = if m.compressed {
            0x800
        } else {
            0
        };
        let encrypted: u32 = if m.encrypted {
            0x4000
        } else {
            0
        };
        let hidden: u32 = if m.hidden {
            0x2
        } else {
            0
        };
        let integrity_stream: u32 = if m.integrity_stream {
            0x8000
        } else {
            0
        };
        let normal: u32 = if m.normal {
            0x80
        } else {
            0
        };
        let not_content_indexed: u32 = if m.not_content_indexed {
            0x2000
        } else {
            0
        };
        let no_scrub_data: u32 = if m.no_scrub_data {
            0x20000
        } else {
            0
        };
        let offline: u32 = if m.offline {
            0x1000
        } else {
            0
        };
        let recall_on_data_access: u32 = if m.recall_on_data_access {
            0x400000
        } else {
            0
        };
        let recall_on_open: u32 = if m.recall_on_open {
            0x40000
        } else {
            0
        };
        let reparse_point: u32 = if m.reparse_point {
            0x400
        } else {
            0
        };
        let sparse_file: u32 = if m.sparse_file {
            0x200
        } else {
            0
        };
        let system: u32 = if m.system {
            0x4
        } else {
            0
        };
        let temporary: u32 = if m.temporary {
            0x100
        } else {
            0
        };
        archive
            | compressed
            | encrypted
            | hidden
            | integrity_stream
            | normal
            | not_content_indexed
            | no_scrub_data
            | offline
            | recall_on_data_access
            | recall_on_open
            | reparse_point
            | sparse_file
            | system
            | temporary
    }
}

impl vstd::std_specs::convert::FromSpecImpl<WindowsMetadata> for u32 {
    open spec fn obeys_from_spec() -> bool {
        true
    }

    open spec fn from_spec(m: WindowsMetadata) -> u32 {
        windows_attribute_bits(m)
    }
}

/// Turning windows metadata into attributes and back gives the same metadata.
pub proof fn lemma_windows_bits_roundtrip(m: WindowsMetadata)
    ensures
        windows_metadata_of(windows_attribute_bits(m)) == m,
{
    let archive = m.archive;
    let compressed = m.compressed;
    let encrypted = m.encrypted;
    let hidden = m.hidden;
    let integrity_stream = m.integrity_stream;
    let normal = m.normal;
    let not_content_indexed = m.not_content_indexed;
    let no_scrub_data = m.no_scrub_data;
    let offline = m.offline;
    let recall_on_data_access = m.recall_on_data_access;
    let recall_on_open = m.recall_on_open;
    let reparse_point = m.reparse_point;
    let sparse_file = m.sparse_file;
    let system = m.system;
    let temporary = m.temporary;
    let bits = (if archive { 0x20u32 } else { 0u32 })
        | (if compressed { 0x800u32 } else { 0u32 })
        | (if encrypted { 0x4000u32 } else { 0u32 })
        | (if hidden { 0x2u32 } else { 0u32 })
        | (if integrity_stream { 0x8000u32 } else { 0u32 })
        | (if normal { 0x80u32 } else { 0u32 })
        | (if not_content_indexed { 0x2000u32 } else { 0u32 })
        | (if no_scrub_data { 0x20000u32 } else { 0u32 })
        | (if offline { 0x1000u32 } else { 0u32 })
        | (if recall_on_data_access { 0x400000u32 } else { 0u32 })
        | (if recall_on_open { 0x40000u32 } else { 0u32 })
        | (if reparse_point { 0x400u32 } else { 0u32 })
        | (if sparse_file { 0x200u32 } else { 0u32 })
        | (if system { 0x4u32 } else { 0u32 })
        | (if temporary { 0x100u32 } else { 0u32 });
    assert((bits & 0x20 != 0) == archive &&
        (bits & 0x800 != 0) == compressed &&
        (bits & 0x4000 != 0) == encrypted &&
        (bits & 0x2 != 0) == hidden &&
        (bits & 0x8000 != 0) == integrity_stream &&
        (bits & 0x80 != 0) == normal &&
        (bits & 0x2000 != 0) == not_content_indexed &&
        (bits & 0x20000 != 0) == no_scrub_data &&
        (bits & 0x1000 != 0) == offline &&
        (bits & 0x400000 != 0) == recall_on_data_access &&
        (bits & 0x40000 != 0) == recall_on_open &&
        (bits & 0x400 != 0) == reparse_point &&
        (bits & 0x200 != 0) == sparse_file &&
        (bits & 0x4 != 0) == system &&
        (bits & 0x100 != 0) == temporary) by (bit_vector)
        requires
            bits == (if archive { 0x20u32 } else { 0u32 })
                | (if compressed { 0x800u32 } else { 0u32 })
                | (if encrypted { 0x4000u32 } else { 0u32 })
                | (if hidden { 0x2u32 } else { 0u32 })
                | (if integrity_stream { 0x8000u32 } else { 0u32 })
                | (if normal { 0x80u32 } else { 0u32 })
                | (if not_content_indexed { 0x2000u32 } else { 0u32 })
                | (if no_scrub_data { 0x20000u32 } else { 0u32 })
                | (if offline { 0x1000u32 } else { 0u32 })
                | (if recall_on_data_access { 0x400000u32 } else { 0u32 })
                | (if recall_on_open { 0x40000u32 } else { 0u32 })
                | (if reparse_point { 0x400u32 } else { 0u32 })
                | (if sparse_file { 0x200u32 } else { 0u32 })
                | (if system { 0x4u32 } else { 0u32 })
                | (if temporary { 0x100u32 } else { 0u32 }),
    ;
}

/// Turning attributes into windows metadata and back keeps the bits of its fields and drops the
/// others.
pub proof fn lemma_windows_value_roundtrip(bits: u32)
    ensures
        windows_attribute_bits(windows_metadata_of(bits)) == bits & 0x46ffa6,
{
    assert((if bits & 0x20 != 0 { 0x20u32 } else { 0u32 })
        | (if bits & 0x800 != 0 { 0x800u32 } else { 0u32 })
        | (if bits & 0x4000 != 0 { 0x4000u32 } else { 0u32 })
        | (if bits & 0x2 != 0 { 0x2u32 } else { 0u32 })
        | (if bits & 0x8000 != 0 { 0x8000u32 } else { 0u32 })
        | (if bits & 0x80 != 0 { 0x80u32 } else { 0u32 })
        | (if bits & 0x2000 != 0 { 0x2000u32 } else { 0u32 })
        | (if bits & 0x20000 != 0 { 0x20000u32 } else { 0u32 })
        | (if bits & 0x1000 != 0 { 0x1000u32 } else { 0u32 })
        | (if bits & 0x400000 != 0 { 0x400000u32 } else { 0u32 })
        | (if bits & 0x40000 != 0 { 0x40000u32 } else { 0u32 })
        | (if bits & 0x400 != 0 { 0x400u32 } else { 0u32 })
        | (if bits & 0x200 != 0 { 0x200u32 } else { 0u32 })
        | (if bits & 0x4 != 0 { 0x4u32 } else { 0u32 })
        | (if bits & 0x100 != 0 { 0x100u32 } else { 0u32 }) == bits & 0x46ffa6) by (bit_vector);
}


/// Each flag of windows metadata reads its documented file attribute: archive `0x20`,
/// compressed `0x800`, encrypted `0x4000`, hidden `0x2`, integrity stream `0x8000`, normal
/// `0x80`, not content indexed `0x2000`, no scrub data `0x20000`, offline `0x1000`, recall on
/// data access `0x400000`, recall on open `0x40000`, reparse point `0x400`, sparse file `0x200`,
/// system `0x4` and temporary `0x100`; the attributes of metadata hold exactly the attribute of
/// each flag that is set, and no other bit.
pub proof fn lemma_windows_flag_bits(bits: u32, m: WindowsMetadata)
    ensures
        windows_metadata_of(bits).archive == (bits & 0x20 != 0),
        windows_metadata_of(bits).compressed == (bits & 0x800 != 0),
        windows_metadata_of(bits).encrypted == (bits & 0x4000 != 0),
        windows_metadata_of(bits).hidden == (bits & 0x2 != 0),
        windows_metadata_of(bits).integrity_stream == (bits & 0x8000 != 0),
        windows_metadata_of(bits).normal == (bits & 0x80 != 0),
        windows_metadata_of(bits).not_content_indexed == (bits & 0x2000 != 0),
        windows_metadata_of(bits).no_scrub_data == (bits & 0x20000 != 0),
        windows_metadata_of(bits).offline == (bits & 0x1000 != 0),
        windows_metadata_of(bits).recall_on_data_access == (bits & 0x400000 != 0),
        windows_metadata_of(bits).recall_on_open == (bits & 0x40000 != 0),
        windows_metadata_of(bits).reparse_point == (bits & 0x400 != 0),
        windows_metadata_of(bits).sparse_file == (bits & 0x200 != 0),
        windows_metadata_of(bits).system == (bits & 0x4 != 0),
        windows_metadata_of(bits).temporary == (bits & 0x100 != 0),
        (windows_attribute_bits(m) & 0x20 != 0) == m.archive,
        (windows_attribute_bits(m) & 0x800 != 0) == m.compressed,
        (windows_attribute_bits(m) & 0x4000 != 0) == m.encrypted,
        (windows_attribute_bits(m) & 0x2 != 0) == m.hidden,
        (windows_attribute_bits(m) & 0x8000 != 0) == m.integrity_stream,
        (windows_attribute_bits(m) & 0x80 != 0) == m.normal,
        (windows_attribute_bits(m) & 0x2000 != 0) == m.not_content_indexed,
        (windows_attribute_bits(m) & 0x20000 != 0) == m.no_scrub_data,
        (windows_attribute_bits(m) & 0x1000 != 0) == m.offline,
        (windows_attribute_bits(m) & 0x400000 != 0) == m.recall_on_data_access,
        (windows_attribute_bits(m) & 0x40000 != 0) == m.recall_on_open,
        (windows_attribute_bits(m) & 0x400 != 0) == m.reparse_point,
        (windows_attribute_bits(m) & 0x200 != 0) == m.sparse_file,
        (windows_attribute_bits(m) & 0x4 != 0) == m.system,
        (windows_attribute_bits(m) & 0x100 != 0) == m.temporary,
        windows_attribute_bits(m) & !0x46ffa6u32 == 0,
{
    lemma_windows_bits_roundtrip(m);
    lemma_windows_value_roundtrip(windows_attribute_bits(m));
    let b = windows_attribute_bits(m);
    assert(b & 0x46ffa6u32 == b ==> b & !0x46ffa6u32 == 0) by (bit_vector);
}

} // verus!
