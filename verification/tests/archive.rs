use std::io::Read;

use gix_archive::entry::{Entry, EntryMode, Stream, StreamError};
use gix_archive::write::{add_prefix, tar_entry_type, write_stream, EntryKind};
use gix_archive::{Error, Format, Options};

fn options(format: Format, modification_time: Option<u64>, prefix: Option<&str>) -> Options {
    Options {
        format,
        modification_time,
        tree_prefix: prefix.map(|p| p.as_bytes().to_vec()),
    }
}

fn entry(mode: EntryMode, path: &str, content: &[u8]) -> Result<Entry, StreamError> {
    Ok(Entry {
        mode,
        relative_path: path.as_bytes().to_vec(),
        content: content.to_vec(),
    })
}

fn entry_stream(entries: Vec<Result<Entry, StreamError>>) -> Stream {
    Stream {
        raw: Vec::new(),
        entries,
    }
}

#[test]
fn passthrough_copies_raw_bytes() {
    let stream = Stream {
        raw: b"already the fully-formed output".to_vec(),
        entries: Vec::new(),
    };
    let mut out = Vec::new();
    let r = write_stream(
        &stream,
        &mut out,
        options(Format::InternalTransientNonPersistable, Some(42), None),
    );
    assert!(r.is_ok());
    assert_eq!(out, b"already the fully-formed output".to_vec());
}

#[test]
fn empty_stream_yields_valid_empty_archive() {
    let stream = entry_stream(Vec::new());
    let mut out = Vec::new();
    let r = write_stream(&stream, &mut out, options(Format::Tar, Some(1), None));
    assert!(r.is_ok());
    assert_eq!(out.len(), 1024);
    assert!(out.iter().all(|b| *b == 0));
    let mut archive = tar::Archive::new(&out[..]);
    assert_eq!(archive.entries().unwrap().count(), 0);
}

#[test]
fn framed_entries_round_trip() {
    let stream = entry_stream(vec![
        entry(EntryMode::Directory, "d/", b""),
        entry(EntryMode::File, "d/a.txt", b"hello world"),
        entry(EntryMode::ExecutableFile, "run.sh", b"#!/bin/sh\n"),
        entry(EntryMode::Symlink, "link", b"d/a.txt"),
    ]);
    let mut out = Vec::new();
    let r = write_stream(
        &stream,
        &mut out,
        options(Format::Tar, Some(1234567890), Some("root/")),
    );
    assert!(r.is_ok());

    let mut archive = tar::Archive::new(&out[..]);
    let mut seen = Vec::new();
    for parsed in archive.entries().unwrap() {
        let mut parsed = parsed.unwrap();
        let path = parsed.path().unwrap().to_str().unwrap().to_string();
        let mode = parsed.header().mode().unwrap();
        let mtime = parsed.header().mtime().unwrap();
        let size = parsed.header().size().unwrap();
        let kind = parsed.header().entry_type();
        let link = parsed
            .link_name()
            .unwrap()
            .map(|l| l.to_str().unwrap().to_string());
        let mut content = Vec::new();
        parsed.read_to_end(&mut content).unwrap();
        assert_eq!(mtime, 1234567890);
        seen.push((path, mode, size, kind, link, content));
    }

    assert_eq!(seen.len(), 4);
    assert_eq!(seen[0].0, "root/d/");
    assert_eq!(seen[0].1, 0o644);
    assert_eq!(seen[0].2, 0);
    assert!(seen[0].3.is_dir());

    assert_eq!(seen[1].0, "root/d/a.txt");
    assert_eq!(seen[1].1, 0o644);
    assert_eq!(seen[1].2, 11);
    assert!(seen[1].3.is_file());
    assert_eq!(seen[1].5, b"hello world".to_vec());

    assert_eq!(seen[2].0, "root/run.sh");
    assert_eq!(seen[2].1, 0o755);
    assert_eq!(seen[2].2, 10);
    assert!(seen[2].3.is_file());
    assert_eq!(seen[2].5, b"#!/bin/sh\n".to_vec());

    assert_eq!(seen[3].0, "root/link");
    assert_eq!(seen[3].1, 0o644);
    assert_eq!(seen[3].2, 0);
    assert!(seen[3].3.is_symlink());
    assert_eq!(seen[3].4.as_deref(), Some("d/a.txt"));
    assert_eq!(seen[3].5, Vec::<u8>::new());
}

#[test]
fn long_paths_survive_framing() {
    let long = "deeply/".repeat(30) + "leaf.txt";
    let stream = entry_stream(vec![entry(EntryMode::File, &long, b"x")]);
    let mut out = Vec::new();
    let r = write_stream(&stream, &mut out, options(Format::Tar, Some(7), None));
    assert!(r.is_ok());

    let mut archive = tar::Archive::new(&out[..]);
    let parsed = archive.entries().unwrap().next().unwrap().unwrap();
    assert_eq!(parsed.path().unwrap().to_str().unwrap(), long.as_str());
}

#[test]
fn two_writes_are_byte_identical() {
    let make = || {
        entry_stream(vec![
            entry(EntryMode::File, "a", b"same content"),
            entry(EntryMode::Symlink, "s", b"a"),
        ])
    };
    let mut out1 = Vec::new();
    let mut out2 = Vec::new();
    let r1 = write_stream(
        &make(),
        &mut out1,
        options(Format::Tar, Some(99), Some("pre/")),
    );
    let r2 = write_stream(
        &make(),
        &mut out2,
        options(Format::Tar, Some(99), Some("pre/")),
    );
    assert!(r1.is_ok() && r2.is_ok());
    assert_eq!(out1, out2);
}

#[test]
fn stream_error_aborts_without_trailer() {
    let good = || {
        vec![
            entry(EntryMode::File, "a", b"first"),
            entry(EntryMode::File, "b", b"second"),
        ]
    };
    let mut failing = good();
    failing.push(Err(StreamError { code: 7 }));
    failing.push(entry(EntryMode::File, "never", b"unreached"));

    let mut full = Vec::new();
    let r = write_stream(
        &entry_stream(good()),
        &mut full,
        options(Format::Tar, Some(3), None),
    );
    assert!(r.is_ok());

    let mut aborted = Vec::new();
    let r = write_stream(
        &entry_stream(failing),
        &mut aborted,
        options(Format::Tar, Some(3), None),
    );
    assert_eq!(r, Err(Error::Stream(StreamError { code: 7 })));
    assert_eq!(aborted, full[..full.len() - 1024].to_vec());
}

#[test]
fn rejected_path_aborts_with_builder_error() {
    let entries = vec![
        entry(EntryMode::File, "kept", b"kept content"),
        entry(EntryMode::File, "../escape", b"rejected"),
    ];
    let mut aborted = Vec::new();
    let r = write_stream(
        &entry_stream(entries),
        &mut aborted,
        options(Format::Tar, Some(3), None),
    );
    assert!(matches!(r, Err(Error::Builder(_))));

    let mut full = Vec::new();
    let r = write_stream(
        &entry_stream(vec![entry(EntryMode::File, "kept", b"kept content")]),
        &mut full,
        options(Format::Tar, Some(3), None),
    );
    assert!(r.is_ok());
    assert_eq!(aborted, full[..full.len() - 1024].to_vec());
}

#[test]
fn entry_types_map_to_framed_kinds() {
    assert_eq!(tar_entry_type(EntryMode::Directory), EntryKind::Directory);
    assert_eq!(tar_entry_type(EntryMode::Commit), EntryKind::Directory);
    assert_eq!(tar_entry_type(EntryMode::File), EntryKind::Regular);
    assert_eq!(tar_entry_type(EntryMode::ExecutableFile), EntryKind::Regular);
    assert_eq!(tar_entry_type(EntryMode::Symlink), EntryKind::Symlink);
}

#[test]
fn prefix_concatenates_without_separator() {
    let rel = b"a/b.txt".to_vec();
    let prefix = b"root/".to_vec();
    assert_eq!(add_prefix(&rel, Some(&prefix)), b"root/a/b.txt".to_vec());
}

#[test]
fn no_prefix_keeps_path_unchanged() {
    let rel = b"a/b.txt".to_vec();
    assert_eq!(add_prefix(&rel, None), b"a/b.txt".to_vec());
}
