//! Options for reading and writing files.
use vstd::prelude::*;

verus! {

/// Options for reading a file.
#[derive(Copy, Clone, Debug, Default, PartialEq, Eq, Structural)]
pub struct ReadFileOptions {
    /// Byte offset to start reading from. None means start of file.
    pub offset: Option<u64>,
    /// Number of bytes to read. None means read to end of file.
    pub len: Option<u64>,
}

/// Options for writing a file.
#[derive(Copy, Clone, Debug, Default, PartialEq, Eq, Structural)]
pub struct WriteFileOptions {
    /// Byte offset to write at. None means write from start (or end if append).
    pub offset: Option<u64>,
    /// If true, append to end of file instead of overwriting.
    pub append: bool,
}

} // verus!
