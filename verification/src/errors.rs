use vstd::prelude::*;

verus! {

/// Why a rename request was refused.
#[derive(Debug, Clone, Copy, PartialEq, Eq, Structural)]
pub enum RenameError {
    /// The proposed name is empty, or holds nothing but whitespace.
    EmptyName,
    /// The proposed name holds a path separator.
    InvalidCharacters,
    /// The path to rename has no parent directory.
    InvalidPath,
    /// The path to rename does not exist.
    NotFound,
    /// The target of the rename already exists.
    AlreadyExists,
    /// The rename itself failed in the file system.
    Io,
}

/// Pseudo-terminal allocation or shell spawn failed; the session was never
/// registered.  Carries the message reported by the operating system.
pub struct SpawnError {
    pub message: String,
}

/// A write or resize against a live session's handle failed; only that call
/// is affected, the session stays registered.  Carries the message reported
/// by the operating system.
pub struct IoError {
    pub message: String,
}

} // verus!
