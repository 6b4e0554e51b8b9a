//! The entry abstraction: what an upstream worktree stream yields once its
//! lazily produced entries and content readers have been drained into plain
//! values.

use vstd::prelude::*;

verus! {

/// The permission mode of one entry in the virtual file tree.
#[derive(Clone, Copy, Debug, PartialEq, Eq, Structural)]
pub enum EntryMode {
    /// A directory.
    Directory,
    /// A plain, non-executable file.
    File,
    /// An executable file.
    ExecutableFile,
    /// A symbolic link; its content source yields the link target bytes
    /// instead of file bytes.
    Symlink,
    /// A commit-like entry (a submodule reference), framed as a directory.
    Commit,
}

/// One unit of the virtual file tree being archived: its permission mode,
/// its relative path as an uninterpreted byte string, and its fully drained
/// content. For a symlink the content holds the link target bytes.
#[derive(Debug)]
pub struct Entry {
    /// The entry's permission mode.
    pub mode: EntryMode,
    /// The entry's path relative to the tree root, with no assumed text
    /// encoding.
    pub relative_path: Vec<u8>,
    /// The entry's content bytes; for a symlink, the link target.
    pub content: Vec<u8>,
}

/// The failure an entry stream reports when it cannot produce the next
/// entry or that entry's content; carried through to the caller verbatim.
#[derive(Clone, Copy, Debug, PartialEq, Eq, Structural)]
pub struct StreamError {
    /// An opaque diagnostic code assigned by the entry producer.
    pub code: u64,
}

/// A drained view of an upstream entry stream: the single contiguous byte
/// form the passthrough format copies, and the per-entry form the framed
/// formats iterate, in exactly the order the producer yielded the entries.
/// A failing stream yields the entries produced before the failure and then
/// the error in place of the next entry.
#[derive(Debug)]
pub struct Stream {
    /// The stream's raw byte form, used only by the passthrough format.
    pub raw: Vec<u8>,
    /// The stream's entry form, used only by the framed formats.
    pub entries: Vec<Result<Entry, StreamError>>,
}

} // verus!
