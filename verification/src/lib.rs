//! Stream a sequence of virtual filesystem entries (files, directories,
//! symlinks) into a persisted archive byte stream, in one of two format
//! families: a raw passthrough copy, or a framed tar archive in which every
//! entry is wrapped in a header that declares its type, size and permission
//! bits before its body bytes follow.

use vstd::prelude::*;

pub mod builder;
pub mod checkout;
pub mod entry;
pub mod write;

pub use crate::write::write_stream;

use crate::builder::BuilderError;
use crate::entry::StreamError;

verus! {

/// The output format family an archive write targets.
#[derive(Clone, Copy, Debug, PartialEq, Eq, Structural)]
pub enum Format {
    /// The stream already exposes the fully-formed output byte sequence:
    /// it is copied to the sink unchanged, with no per-entry framing.
    InternalTransientNonPersistable,
    /// A tar archive with GNU-style headers, written entry by entry and
    /// terminated by the format's trailer blocks.
    Tar,
}

/// Immutable per-run configuration for one archive write.
#[derive(Debug)]
pub struct Options {
    /// The output format to write.
    pub format: Format,
    /// A uniform modification time, in seconds since the Unix epoch, applied
    /// to every entry for reproducible output; `None` leaves each header's
    /// modification-time field at its zeroed default, as happens when the
    /// caller's clock predates the epoch.
    pub modification_time: Option<u64>,
    /// An optional byte string prepended, byte for byte and with no inserted
    /// separator, to every entry's relative path.
    pub tree_prefix: Option<Vec<u8>>,
}

/// The error returned when an archive write aborts; every failure is fatal
/// to the whole write and the sink's partial content must be discarded.
#[derive(Clone, Copy, Debug, PartialEq, Eq, Structural)]
pub enum Error {
    /// The entry stream failed to produce the next entry or its content.
    Stream(StreamError),
    /// The archive builder rejected an append, for instance because an
    /// entry's path cannot be represented in the format's header.
    Builder(BuilderError),
}

} // verus!
