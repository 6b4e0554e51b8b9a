//! The archive writer: per-format state, the per-entry framing policy, and
//! the driving loop that turns a drained entry stream into archive bytes.

use vstd::prelude::*;

use crate::builder::{
    append_data_entry, append_link_entry, builder_bytes, builder_finished, data_append_result,
    finish_builder, into_sink, link_append_result, new_builder, sink_so_far, trailer_bytes,
};
use crate::entry::{Entry, EntryMode, Stream, StreamError};
use crate::{Error, Format, Options};

verus! {

/// The framed entry type a permission mode maps to.
#[derive(Clone, Copy, Debug, PartialEq, Eq, Structural)]
pub enum EntryKind {
    /// A directory entry, with no body bytes of its own.
    Directory,
    /// A regular file entry whose body follows its header.
    Regular,
    /// A symbolic link entry; the target travels in the header.
    Symlink,
}

/// The framed entry type for `mode`: directories and commit-like entries
/// become directory entries, plain and executable files regular ones, and
/// symlinks symlink entries.
pub open spec fn spec_tar_entry_type(mode: EntryMode) -> EntryKind {
    match mode {
        EntryMode::Directory => EntryKind::Directory,
        EntryMode::Commit => EntryKind::Directory,
        EntryMode::File => EntryKind::Regular,
        EntryMode::ExecutableFile => EntryKind::Regular,
        EntryMode::Symlink => EntryKind::Symlink,
    }
}

/// Map a permission mode to the framed entry type of the header written
/// for it.
pub fn tar_entry_type(mode: EntryMode) -> (k: EntryKind)
    ensures
        k == spec_tar_entry_type(mode),
{
    match mode {
        EntryMode::Directory => EntryKind::Directory,
        EntryMode::Commit => EntryKind::Directory,
        EntryMode::File => EntryKind::Regular,
        EntryMode::ExecutableFile => EntryKind::Regular,
        EntryMode::Symlink => EntryKind::Symlink,
    }
}

/// The permission bits written into an entry's header: executable files get
/// 0o755, every other entry 0o644.
pub open spec fn spec_mode_bits(mode: EntryMode) -> u32 {
    if mode is ExecutableFile {
        0o755u32
    } else {
        0o644u32
    }
}

/// The archived path of an entry: the optional tree prefix concatenated,
/// byte for byte and with no inserted separator, with the relative path.
pub open spec fn spec_archived_path(prefix: Option<Vec<u8>>, relative_path: Seq<u8>) -> Seq<u8> {
    match prefix {
        Option::None => relative_path,
        Option::Some(p) => p@ + relative_path,
    }
}

/// Concatenate the optional tree prefix and a relative path, byte for byte
/// with no inserted separator.
pub fn add_prefix(relative_path: &Vec<u8>, prefix: Option<&Vec<u8>>) -> (r: Vec<u8>)
    ensures
        prefix matches Option::Some(p) ==> r@ == p@ + relative_path@,
        prefix is None ==> r@ == relative_path@,
{
    match prefix {
        Option::None => {
            let mut buf: Vec<u8> = Vec::new();
            push_bytes(&mut buf, relative_path);
            proof {
                assert(buf@ =~= relative_path@);
            }
            buf
        },
        Option::Some(p) => {
            let mut buf: Vec<u8> = Vec::new();
            push_bytes(&mut buf, p);
            push_bytes(&mut buf, relative_path);
            proof {
                assert(buf@ =~= p@ + relative_path@);
            }
            buf
        },
    }
}

/// Append a copy of `src`'s bytes to `dst`.
fn push_bytes(dst: &mut Vec<u8>, src: &Vec<u8>)
    ensures
        final(dst)@ == old(dst)@ + src@,
{
    let mut i: usize = 0;
    while i < src.len()
        invariant
            i <= src.len(),
            dst@ == old(dst)@ + src@.take(i as int),
        decreases src.len() - i,
    {
        dst.push(src[i]);
        proof {
            assert(dst@ =~= old(dst)@ + src@.take(i + 1 as int));
        }
        i = i + 1;
    }
    proof {
        assert(old(dst)@ + src@.take(src@.len() as int) =~= old(dst)@ + src@);
    }
}

/// Everything the framing policy decides about one entry before handing it
/// to the archive builder: the uniform modification time, the permission
/// bits, the framed type, the declared size, the archived path, the body
/// bytes that follow the header, and the link target carried in the header.
#[verifier::ext_equal]
pub struct EntryFrame {
    /// The modification time stamped on the header.
    pub mtime: Option<u64>,
    /// The permission bits written into the header.
    pub mode_bits: u32,
    /// The framed entry type.
    pub kind: EntryKind,
    /// The size the header declares for the body.
    pub size: int,
    /// The archived path: tree prefix plus relative path.
    pub path: Seq<u8>,
    /// The body bytes written after the header.
    pub body: Seq<u8>,
    /// The link target carried in the header; empty for non-symlinks.
    pub target: Seq<u8>,
}

/// The framing policy: what the writer hands to the archive builder for one
/// entry under the given options. A symlink's drained content becomes the
/// header's link target and its declared size is zero; every other entry's
/// drained content becomes the body and its length the declared size.
pub open spec fn frame_of(e: Entry, opts: Options) -> EntryFrame {
    EntryFrame {
        mtime: opts.modification_time,
        mode_bits: spec_mode_bits(e.mode),
        kind: spec_tar_entry_type(e.mode),
        size: if e.mode is Symlink {
            0
        } else {
            e.content@.len() as int
        },
        path: spec_archived_path(opts.tree_prefix, e.relative_path@),
        body: if e.mode is Symlink {
            Seq::empty()
        } else {
            e.content@
        },
        target: if e.mode is Symlink {
            e.content@
        } else {
            Seq::empty()
        },
    }
}

/// The bytes the archive builder emits for one framed entry, or `None`
/// when it rejects the entry.
pub open spec fn frame_append(f: EntryFrame) -> Option<Seq<u8>> {
    if f.kind is Symlink {
        link_append_result(f.mtime, f.mode_bits, f.size, f.path, f.target)
    } else {
        data_append_result(f.mtime, f.mode_bits, f.kind is Directory, f.size, f.path, f.body)
    }
}

/// The bytes the archive builder emits for one entry under `opts`.
pub open spec fn entry_append(e: Entry, opts: Options) -> Option<Seq<u8>> {
    frame_append(frame_of(e, opts))
}

/// Whether a stream item is an entry that the builder accepts.
pub open spec fn item_appendable(item: Result<Entry, StreamError>, opts: Options) -> bool {
    item is Ok && entry_append(item->Ok_0, opts) is Some
}

/// Whether every item of the stream is an entry that the builder accepts.
pub open spec fn all_appendable(items: Seq<Result<Entry, StreamError>>, opts: Options) -> bool {
    forall|k: int| 0 <= k < items.len() ==> item_appendable(#[trigger] items[k], opts)
}

/// Whether `n` is the first position at which the write fails: every item
/// before it was appended, and the item at `n` is a stream error or an
/// entry the builder rejects.
pub open spec fn first_failure_at(
    items: Seq<Result<Entry, StreamError>>,
    opts: Options,
    n: int,
) -> bool {
    &&& 0 <= n < items.len()
    &&& forall|k: int| 0 <= k < n ==> item_appendable(#[trigger] items[k], opts)
    &&& !item_appendable(items[n], opts)
}

/// The concatenation of the bytes the builder emits for the first `n`
/// items, counting an item that is not appendable as empty.
pub open spec fn appended_bytes_upto(
    items: Seq<Result<Entry, StreamError>>,
    opts: Options,
    n: int,
) -> Seq<u8>
    decreases n,
{
    if n <= 0 {
        Seq::empty()
    } else {
        appended_bytes_upto(items, opts, n - 1) + (if item_appendable(items[n - 1], opts) {
            entry_append(items[n - 1]->Ok_0, opts)->0
        } else {
            Seq::empty()
        })
    }
}

/// Everything `write_stream` guarantees about one call: how the sink's
/// final bytes and the returned result are determined by the stream, the
/// options and the sink's prior bytes.
pub open spec fn write_stream_post(
    stream: Stream,
    opts: Options,
    out0: Seq<u8>,
    out1: Seq<u8>,
    r: Result<(), Error>,
) -> bool {
    match opts.format {
        Format::InternalTransientNonPersistable => {
            &&& r == Ok::<(), Error>(())
            &&& out1 == out0 + stream.raw@
        },
        Format::Tar => {
            let items = stream.entries@;
            &&& (r is Ok <==> all_appendable(items, opts))
            &&& (all_appendable(items, opts) ==> r == Ok::<(), Error>(()))
            &&& (r is Ok ==> out1 == out0 + appended_bytes_upto(items, opts, items.len() as int)
                + trailer_bytes())
            &&& (forall|n: int|
                #[trigger] first_failure_at(items, opts, n) && items[n] is Err ==> r == Err::<
                    (),
                    Error,
                >(Error::Stream(items[n]->Err_0)) && out1 == out0 + appended_bytes_upto(
                    items,
                    opts,
                    n,
                ))
            &&& (forall|n: int|
                #[trigger] first_failure_at(items, opts, n) && items[n] is Ok ==> (r matches Err(
                    Error::Builder(_),
                )) && (out0 + appended_bytes_upto(items, opts, n)).is_prefix_of(out1))
        },
    }
}

/// The per-format mutable state of one archive write: the passthrough
/// format's sink, or the framed format's archive builder together with the
/// scratch buffer reused across entries.
pub enum State {
    /// The passthrough format writes into the sink directly.
    Internal(Vec<u8>),
    /// The framed format appends to an archive builder; the byte buffer is
    /// the scratch space one entry's content is drained into, cleared but
    /// not reallocated between entries.
    Tar(crate::builder::ArchiveBuilder, Vec<u8>),
}

impl State {
    /// Construct the per-format state over the sink bytes written so far;
    /// construction writes nothing.
    pub fn new(format: Format, out: Vec<u8>) -> (s: State)
        ensures
            match format {
                Format::InternalTransientNonPersistable => s matches State::Internal(sink)
                    && sink@ == out@,
                Format::Tar => s matches State::Tar(b, scratch) && builder_bytes(b) == out@
                    && !builder_finished(b) && scratch@ == Seq::<u8>::empty(),
            },
    {
        match format {
            Format::InternalTransientNonPersistable => State::Internal(out),
            Format::Tar => State::Tar(new_builder(out), Vec::with_capacity(64 * 1024)),
        }
    }
}

/// Two distinct positions cannot both be the first failure.
proof fn lemma_first_failure_unique(
    items: Seq<Result<Entry, StreamError>>,
    opts: Options,
    n1: int,
    n2: int,
)
    requires
        first_failure_at(items, opts, n1),
        first_failure_at(items, opts, n2),
    ensures
        n1 == n2,
{
    if n1 < n2 {
        assert(item_appendable(items[n1], opts));
    } else if n2 < n1 {
        assert(item_appendable(items[n2], opts));
    }
}

/// When not every item is appendable, a first failing position exists.
proof fn find_first_failure(
    items: Seq<Result<Entry, StreamError>>,
    opts: Options,
    j: int,
) -> (n: int)
    requires
        0 <= j <= items.len(),
        forall|k: int| 0 <= k < j ==> item_appendable(#[trigger] items[k], opts),
        !all_appendable(items, opts),
    ensures
        first_failure_at(items, opts, n),
    decreases items.len() - j,
{
    if j == items.len() {
        assert(all_appendable(items, opts));
        j
    } else if !item_appendable(items[j], opts) {
        j
    } else {
        find_first_failure(items, opts, j + 1)
    }
}

/// Write the drained worktree `stream` to `out` as configured by `opts`.
///
/// The passthrough format copies the stream's raw bytes to the sink
/// unchanged. The framed format frames each entry in the order the stream
/// produced it — header first, body after, sizes known before headers are
/// written — and finally writes the archive trailer. Any stream error or
/// rejected append aborts the whole write: the sink then holds a truncated
/// archive without a trailer, which the caller must discard.
///
/// Because an entry's full content must be drained before its header can
/// declare its size, the framed format holds one entry's content in memory
/// at a time; very large entries belong in a format without upfront sizes.
pub fn write_stream(stream: &Stream, out: &mut Vec<u8>, opts: Options) -> (r: Result<(), Error>)
    ensures
        write_stream_post(*stream, opts, old(out)@, final(out)@, r),
{
    let state = State::new(opts.format, Vec::new());
    match state {
        State::Internal(mut sink) => {
            push_bytes(&mut sink, &stream.raw);
            push_bytes(out, &sink);
            proof {
                assert(final(out)@ =~= old(out)@ + stream.raw@);
            }
            Ok(())
        },
        State::Tar(mut builder, mut scratch) => {
            let ghost items = stream.entries@;
            let mtime = opts.modification_time;
            let mut i: usize = 0;
            while i < stream.entries.len()
                invariant
                    opts.format is Tar,
                    i <= stream.entries.len(),
                    items == stream.entries@,
                    mtime == opts.modification_time,
                    forall|k: int| 0 <= k < i ==> item_appendable(#[trigger] items[k], opts),
                    builder_bytes(builder) == appended_bytes_upto(items, opts, i as int),
                    !builder_finished(builder),
                    out@ == old(out)@,
                decreases stream.entries.len() - i,
            {
                match &stream.entries[i] {
                    Result::Err(e) => {
                        proof {
                            assert(!item_appendable(items[i as int], opts));
                            assert(first_failure_at(items, opts, i as int));
                            assert(!all_appendable(items, opts));
                            assert forall|n: int|
                                #[trigger] first_failure_at(items, opts, n) implies n == i as int by {
                                lemma_first_failure_unique(items, opts, n, i as int);
                            }
                        }
                        let partial = sink_so_far(&builder);
                        push_bytes(out, &partial);
                        return Err(Error::Stream(*e));
                    },
                    Result::Ok(entry) => {
                        let kind = tar_entry_type(entry.mode);
                        let mode_bits: u32 = if entry.mode == EntryMode::ExecutableFile {
                            0o755
                        } else {
                            0o644
                        };
                        scratch.clear();
                        push_bytes(&mut scratch, &entry.content);
                        let path = add_prefix(&entry.relative_path, opts.tree_prefix.as_ref());
                        let size: u64 = scratch.len() as u64;
                        proof {
                            assert(items[i as int] is Ok && items[i as int]->Ok_0 == *entry);
                            assert(scratch@ == entry.content@);
                            assert(path@ == spec_archived_path(
                                opts.tree_prefix,
                                entry.relative_path@,
                            ));
                        }
                        let res = if kind == EntryKind::Symlink {
                            append_link_entry(&mut builder, mtime, mode_bits, 0, &path, &scratch)
                        } else {
                            append_data_entry(
                                &mut builder,
                                mtime,
                                mode_bits,
                                kind == EntryKind::Directory,
                                size,
                                &path,
                                &scratch,
                            )
                        };
                        proof {
                            let f = frame_of(*entry, opts);
                            assert(f.mtime == mtime);
                            assert(f.mode_bits == mode_bits);
                            assert(f.kind == kind);
                            assert(f.path == path@);
                            if entry.mode is Symlink {
                                assert(f.size == 0 && f.target == scratch@);
                            } else {
                                assert(f.size == size as int && f.body == scratch@);
                            }
                        }
                        match res {
                            Result::Ok(()) => {},
                            Result::Err(be) => {
                                proof {
                                    assert(!item_appendable(items[i as int], opts));
                                    assert(first_failure_at(items, opts, i as int));
                                    assert(!all_appendable(items, opts));
                                    assert forall|n: int|
                                        #[trigger] first_failure_at(items, opts, n) implies n
                                        == i as int by {
                                        lemma_first_failure_unique(items, opts, n, i as int);
                                    }
                                }
                                let partial = sink_so_far(&builder);
                                push_bytes(out, &partial);
                                proof {
                                    lemma_prefix_extend(
                                        old(out)@,
                                        appended_bytes_upto(items, opts, i as int),
                                        partial@,
                                    );
                                }
                                return Err(Error::Builder(be));
                            },
                        }
                        proof {
                            assert(item_appendable(items[i as int], opts));
                            assert(appended_bytes_upto(items, opts, i + 1 as int)
                                == appended_bytes_upto(items, opts, i as int) + entry_append(
                                *entry,
                                opts,
                            )->0);
                        }
                    },
                }
                i = i + 1;
            }
            proof {
                assert(all_appendable(items, opts));
                assert forall|n: int| !#[trigger] first_failure_at(items, opts, n) by {
                    if first_failure_at(items, opts, n) {
                        assert(item_appendable(items[n], opts));
                    }
                }
            }
            finish_builder(&mut builder);
            let bytes = into_sink(builder);
            push_bytes(out, &bytes);
            proof {
                assert(final(out)@ =~= old(out)@ + appended_bytes_upto(
                    items,
                    opts,
                    items.len() as int,
                ) + trailer_bytes());
            }
            Ok(())
        },
    }
}

/// Determinism: two writes of the same stream with the same options onto
/// the same prior sink bytes return the same result and leave the same
/// bytes, as long as the write did not abort on a rejected append (after
/// one, the sink's trailing bytes are not specified).
pub proof fn lemma_write_stream_deterministic(
    stream: Stream,
    opts: Options,
    out0: Seq<u8>,
    out1: Seq<u8>,
    r1: Result<(), Error>,
    out2: Seq<u8>,
    r2: Result<(), Error>,
)
    ensures
        write_stream_post(stream, opts, out0, out1, r1) && write_stream_post(
            stream,
            opts,
            out0,
            out2,
            r2,
        ) && !(r1 matches Err(Error::Builder(_))) ==> r1 == r2 && out1 == out2,
{
    if write_stream_post(stream, opts, out0, out1, r1) && write_stream_post(
        stream,
        opts,
        out0,
        out2,
        r2,
    ) && !(r1 matches Err(Error::Builder(_))) {
        match opts.format {
            Format::InternalTransientNonPersistable => {
            },
            Format::Tar => {
                let items = stream.entries@;
                if all_appendable(items, opts) {
                } else {
                    let n = find_first_failure(items, opts, 0);
                    if items[n] is Err {
                        assert(r1 == r2 && out1 == out2);
                    } else {
                        assert(r1 matches Err(Error::Builder(_)));
                    }
                }
            },
        }
    }
}

/// Passthrough fidelity: in the passthrough format the write succeeds and
/// the sink gains exactly the stream's raw bytes, with no framing added.
pub proof fn lemma_passthrough_fidelity(
    stream: Stream,
    opts: Options,
    out0: Seq<u8>,
    out1: Seq<u8>,
    r: Result<(), Error>,
)
    ensures
        opts.format is InternalTransientNonPersistable && write_stream_post(
            stream,
            opts,
            out0,
            out1,
            r,
        ) ==> r is Ok && out1 == out0 + stream.raw@,
{
}

/// Size correctness: every non-symlink entry is framed with a declared size
/// equal to the number of body bytes handed to the builder, which are the
/// entry's drained content.
pub proof fn lemma_size_correctness(e: Entry, opts: Options)
    ensures
        !(e.mode is Symlink) ==> frame_of(e, opts).size == frame_of(e, opts).body.len()
            && frame_of(e, opts).body == e.content@,
{
}

/// Symlink framing: a symlink is framed with declared size zero and no body
/// bytes, and the header's link target is exactly the drained content.
pub proof fn lemma_symlink_framing(e: Entry, opts: Options)
    ensures
        e.mode is Symlink ==> frame_of(e, opts).size == 0 && frame_of(e, opts).body == Seq::<
            u8,
        >::empty() && frame_of(e, opts).target == e.content@ && frame_of(e, opts).kind is Symlink,
{
}

/// Permission mapping: an executable file is framed with mode 0o755 and a
/// plain file with mode 0o644.
pub proof fn lemma_permission_mapping(e: Entry, opts: Options)
    ensures
        e.mode is ExecutableFile ==> frame_of(e, opts).mode_bits == 0o755u32,
        e.mode is File ==> frame_of(e, opts).mode_bits == 0o644u32,
{
}

/// Prefix concatenation: with a tree prefix the archived path is the prefix
/// followed byte for byte by the relative path, with no inserted separator;
/// without one it is the relative path unchanged.
pub proof fn lemma_prefix_concatenation(e: Entry, opts: Options)
    ensures
        opts.tree_prefix matches Option::Some(p) ==> frame_of(e, opts).path == p@
            + e.relative_path@,
        opts.tree_prefix is None ==> frame_of(e, opts).path == e.relative_path@,
{
}

/// Empty stream: writing an empty entry stream in the framed format
/// succeeds and emits exactly the archive trailer — a valid archive that a
/// conformant reader parses as zero entries.
pub proof fn lemma_empty_stream(
    stream: Stream,
    opts: Options,
    out0: Seq<u8>,
    out1: Seq<u8>,
    r: Result<(), Error>,
)
    ensures
        opts.format is Tar && stream.entries@.len() == 0 && write_stream_post(
            stream,
            opts,
            out0,
            out1,
            r,
        ) ==> r is Ok && out1 == out0 + trailer_bytes(),
{
    if opts.format is Tar && stream.entries@.len() == 0 && write_stream_post(
        stream,
        opts,
        out0,
        out1,
        r,
    ) {
        let items = stream.entries@;
        assert(all_appendable(items, opts));
        assert(out0 + appended_bytes_upto(items, opts, 0) + trailer_bytes() =~= out0
            + trailer_bytes());
    }
}

/// Error abort: when the stream fails at position `n` after `n` entries
/// were appended, the write returns exactly that stream error and the sink
/// gains exactly those `n` entries' bytes — no further append, no trailer.
pub proof fn lemma_error_abort(
    stream: Stream,
    opts: Options,
    out0: Seq<u8>,
    out1: Seq<u8>,
    r: Result<(), Error>,
    n: int,
)
    ensures
        opts.format is Tar && write_stream_post(stream, opts, out0, out1, r) && first_failure_at(
            stream.entries@,
            opts,
            n,
        ) && stream.entries@[n] is Err ==> r == Err::<(), Error>(
            Error::Stream(stream.entries@[n]->Err_0),
        ) && out1 == out0 + appended_bytes_upto(stream.entries@, opts, n),
{
}

/// Concatenation on the left preserves the prefix order.
proof fn lemma_prefix_extend(a: Seq<u8>, b: Seq<u8>, c: Seq<u8>)
    requires
        b.is_prefix_of(c),
    ensures
        (a + b).is_prefix_of(a + c),
{
    assert((a + b) =~= (a + c).subrange(0, (a + b).len() as int));
}

} // verus!
