//! Trusted boundary around the `tar` crate's incremental archive builder.
//!
//! The builder is driven against an in-memory sink (`Vec<u8>`), so the only
//! state the contracts need is the byte sequence written so far and whether
//! the terminating trailer was already written. What one append emits is a
//! deterministic function of the header fields, the path and the data, and
//! is left uninterpreted here; the writer's own contracts are stated over
//! these names.

use vstd::prelude::*;

use bstr::ByteSlice;

verus! {

/// The failure the archive builder reports when it rejects an append, for
/// instance because an entry's path cannot be represented in a header.
#[derive(Clone, Copy, Debug, PartialEq, Eq, Structural)]
pub struct BuilderError;

/// The framed format's incremental archive builder over an in-memory sink.
/// The `tar` crate's builder type cannot be declared to the verifier (its
/// type parameter is bound by an I/O trait), so it is held opaquely here and
/// described only through the two names below.
#[verifier::external_body]
pub struct ArchiveBuilder {
    inner: tar::Builder<Vec<u8>>,
}

/// The bytes the builder has written to its in-memory sink so far.
pub uninterp spec fn builder_bytes(b: ArchiveBuilder) -> Seq<u8>;

/// Whether the builder has already written the archive's trailer.
pub uninterp spec fn builder_finished(b: ArchiveBuilder) -> bool;

/// What appending one regular or directory entry emits: the header block,
/// a GNU long-name entry where the path needs one, the body bytes and their
/// zero padding — or nothing, when the path cannot be represented.
pub uninterp spec fn data_append_result(
    mtime: Option<u64>,
    mode_bits: u32,
    is_dir: bool,
    size: int,
    path: Seq<u8>,
    data: Seq<u8>,
) -> Option<Seq<u8>>;

/// What appending one symlink entry emits: the header block carrying the
/// link target, with GNU long-name entries where path or target need one —
/// or nothing, when path or target cannot be represented.
pub uninterp spec fn link_append_result(
    mtime: Option<u64>,
    mode_bits: u32,
    size: int,
    path: Seq<u8>,
    target: Seq<u8>,
) -> Option<Seq<u8>>;

/// The trailer that terminates a tar archive: two 512-byte blocks of zeros.
pub open spec fn trailer_bytes() -> Seq<u8> {
    Seq::new(1024, |i: int| 0u8)
}

/// Relies on `tar::Builder::new` and `tar::Builder::mode`: construction
/// writes nothing to the sink it wraps, and the header mode only affects
/// appends that read filesystem metadata, which this crate never performs.
#[verifier::external_body]
pub(crate) fn new_builder(out: Vec<u8>) -> (b: ArchiveBuilder)
    ensures
        builder_bytes(b) == out@,
        !builder_finished(b),
{
    let mut ar = tar::Builder::new(out);
    ar.mode(tar::HeaderMode::Deterministic);
    ArchiveBuilder { inner: ar }
}

/// Relies on `tar::Header::new_gnu`, its field setters and
/// `tar::Builder::append_data`: the appended bytes are a function of the
/// header fields, path and data alone; writes to the in-memory sink cannot
/// fail, so failure means the path was rejected, and on failure nothing has
/// been written beyond what was already there.
#[verifier::external_body]
pub(crate) fn append_data_entry(
    b: &mut ArchiveBuilder,
    mtime: Option<u64>,
    mode_bits: u32,
    is_dir: bool,
    size: u64,
    path: &Vec<u8>,
    data: &Vec<u8>,
) -> (r: Result<(), BuilderError>)
    ensures
        builder_finished(*final(b)) == builder_finished(*old(b)),
        r is Ok <==> data_append_result(mtime, mode_bits, is_dir, size as int, path@, data@) is Some,
        r is Ok ==> builder_bytes(*final(b)) == builder_bytes(*old(b))
            + data_append_result(mtime, mode_bits, is_dir, size as int, path@, data@)->0,
        r is Err ==> builder_bytes(*old(b)).is_prefix_of(builder_bytes(*final(b))),
{
    let mut header = tar::Header::new_gnu();
    if let Some(m) = mtime {
        header.set_mtime(m);
    }
    header.set_entry_type(if is_dir { tar::EntryType::Directory } else { tar::EntryType::Regular });
    header.set_mode(mode_bits);
    header.set_size(size);
    let p = gix_path::from_bstr(path.as_slice().as_bstr());
    b.inner.append_data(&mut header, p, data.as_slice()).map_err(|_| BuilderError)
}

/// Relies on `tar::Header::new_gnu`, its field setters and
/// `tar::Builder::append_link` with a symlink-typed header: the appended
/// bytes are a function of the header fields, path and target alone; writes
/// to the in-memory sink cannot fail, so failure means path or target was
/// rejected, after which the sink holds at most a prepended long-name entry
/// beyond what was already there.
#[verifier::external_body]
pub(crate) fn append_link_entry(
    b: &mut ArchiveBuilder,
    mtime: Option<u64>,
    mode_bits: u32,
    size: u64,
    path: &Vec<u8>,
    target: &Vec<u8>,
) -> (r: Result<(), BuilderError>)
    ensures
        builder_finished(*final(b)) == builder_finished(*old(b)),
        r is Ok <==> link_append_result(mtime, mode_bits, size as int, path@, target@) is Some,
        r is Ok ==> builder_bytes(*final(b)) == builder_bytes(*old(b))
            + link_append_result(mtime, mode_bits, size as int, path@, target@)->0,
        r is Err ==> builder_bytes(*old(b)).is_prefix_of(builder_bytes(*final(b))),
{
    let mut header = tar::Header::new_gnu();
    if let Some(m) = mtime {
        header.set_mtime(m);
    }
    header.set_entry_type(tar::EntryType::Symlink);
    header.set_mode(mode_bits);
    header.set_size(size);
    let p = gix_path::from_bstr(path.as_slice().as_bstr());
    let t = gix_path::from_bstr(target.as_slice().as_bstr());
    b.inner.append_link(&mut header, p, t).map_err(|_| BuilderError)
}

/// Relies on `tar::Builder::finish`: unless the trailer was already written
/// it writes exactly two 512-byte blocks of zeros, and against the in-memory
/// sink that write cannot fail.
#[verifier::external_body]
pub(crate) fn finish_builder(b: &mut ArchiveBuilder)
    ensures
        builder_finished(*final(b)),
        builder_bytes(*final(b)) == if builder_finished(*old(b)) {
            builder_bytes(*old(b))
        } else {
            builder_bytes(*old(b)) + trailer_bytes()
        },
{
    let _ = b.inner.finish();
}

/// Relies on `tar::Builder::into_inner`: on a builder whose trailer was
/// already written it hands back the underlying sink without writing.
#[verifier::external_body]
pub(crate) fn into_sink(b: ArchiveBuilder) -> (r: Vec<u8>)
    requires
        builder_finished(b),
    ensures
        r@ == builder_bytes(b),
{
    b.inner.into_inner().unwrap_or_default()
}

/// Relies on `tar::Builder::get_ref`: a borrow of the underlying sink, so
/// the bytes written so far can be copied out of an unfinished builder.
#[verifier::external_body]
pub(crate) fn sink_so_far(b: &ArchiveBuilder) -> (r: Vec<u8>)
    ensures
        r@ == builder_bytes(*b),
{
    b.inner.get_ref().clone()
}

} // verus!
