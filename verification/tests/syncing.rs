use std::path::Path;

use gcs_rsync::entry::{EntryStep, Reply, Request};
use gcs_rsync::error::fs_io_error_text;
use gcs_rsync::storage::{Entry, FsClient, GcsClient, Mtime, ReaderWriterInternal, SizeAndMt, WriteKind};
use gcs_rsync::{RSync, RSyncError, RSyncFilter, RSyncResult, RSyncStatus, ReaderWriter, RelativePath, StorageError};

fn name(text: &str) -> RelativePath {
    RelativePath::new(text).unwrap()
}

fn bucket() -> ReaderWriter<u8> {
    ReaderWriter::gcs(Ok(GcsClient::new(7, "bucket", "prefix"))).unwrap()
}

fn directory() -> ReaderWriter<u8> {
    ReaderWriter::fs(Path::new("/tmp/mirror"))
}

fn failure(text: &str) -> RSyncError {
    RSyncError::StorageError(StorageError::new(text))
}

fn is_failure<X>(result: &RSyncResult<X>, text: &str) -> bool {
    matches!(result, Err(RSyncError::StorageError(t)) if t.text == text)
}

fn at(secs: i64, nanos: u32) -> Option<Mtime> {
    Some(Mtime { secs, nanos })
}

fn crc(path: &str, crc32c: u32) -> Reply {
    Reply::Crc32c(Ok(Some(Entry::new(&name(path), crc32c))))
}

fn stat(mtime: Option<Mtime>, size: Option<u64>) -> Reply {
    let answer: SizeAndMt = (mtime, size);
    Reply::SizeAndMt(Ok(answer))
}

fn run(rsync: &RSync<u8>, first: EntryStep, replies: Vec<Reply>) -> (Vec<Request>, RSyncResult<RSyncStatus>) {
    let mut requests = Vec::new();
    let mut replies = replies.into_iter();
    let mut step = first;
    loop {
        match step {
            EntryStep::Pending(task) => {
                requests.push(task.request());
                step = rsync.resume_entry(task, replies.next().unwrap());
            }
            EntryStep::Done(result) => {
                assert!(replies.next().is_none());
                return (requests, result);
            }
        }
    }
}

fn sync(rsync: &RSync<u8>, replies: Vec<Reply>) -> (Vec<Request>, RSyncResult<RSyncStatus>) {
    let first = rsync.sync(Ok(name("a/b"))).unwrap();
    run(rsync, first, replies)
}

fn updated(reason: &str) -> RSyncStatus {
    RSyncStatus::Updated { reason: reason.to_string(), path: name("a/b") }
}

fn already_synced(reason: &str) -> RSyncStatus {
    RSyncStatus::AlreadySynced { reason: reason.to_string(), path: name("a/b") }
}

#[test]
fn a_new_entry_is_created_with_its_mtime_in_a_bucket() {
    let rsync = RSync::new(directory(), bucket());
    let (requests, result) = sync(
        &rsync,
        vec![stat(None, None), stat(at(10, 5), Some(3)), Reply::Written(Ok(()))],
    );
    assert_eq!(
        requests,
        vec![
            Request::DestSizeAndMt,
            Request::SourceSizeAndMt,
            Request::Write(WriteKind::WithMtime(Mtime { secs: 10, nanos: 5 })),
        ]
    );
    assert_eq!(result.unwrap(), RSyncStatus::Created(name("a/b")));
}

#[test]
fn a_directory_gets_mtimes_only_when_they_are_restored() {
    let replies = || vec![stat(None, None), stat(at(10, 5), Some(3)), Reply::Written(Ok(()))];
    let plain = RSync::new(bucket(), directory());
    assert_eq!(sync(&plain, replies()).0[2], Request::Write(WriteKind::Plain));
    let restoring = RSync::new(bucket(), directory()).with_restore_fs_mtime(true);
    assert_eq!(
        sync(&restoring, replies()).0[2],
        Request::Write(WriteKind::WithMtime(Mtime { secs: 10, nanos: 5 }))
    );
    let undone = restoring.with_restore_fs_mtime(false);
    assert_eq!(sync(&undone, replies()).0[2], Request::Write(WriteKind::Plain));
}

#[test]
fn a_new_entry_without_mtime_is_written_without_one() {
    let rsync = RSync::new(bucket(), bucket());
    let (requests, result) = sync(
        &rsync,
        vec![stat(None, None), stat(None, Some(3)), Reply::Written(Ok(()))],
    );
    assert_eq!(requests[2], Request::Write(WriteKind::Plain));
    assert_eq!(result.unwrap(), RSyncStatus::Created(name("a/b")));
}

const COMPARING: [Request; 4] = [
    Request::DestSizeAndMt,
    Request::SourceSizeAndMt,
    Request::DestCrc32c,
    Request::SourceCrc32c,
];

#[test]
fn the_same_seconds_and_size_leave_an_entry() {
    let rsync = RSync::new(directory(), bucket());
    let (requests, result) = sync(
        &rsync,
        vec![stat(at(10, 0), Some(3)), stat(at(10, 999), Some(3)), crc("a/b", 1), crc("a/b", 1)],
    );
    assert_eq!(requests, COMPARING);
    assert_eq!(result.unwrap(), already_synced("same mtime and size"));
}

#[test]
fn another_checksum_overrules_the_same_seconds_and_size() {
    let rsync = RSync::new(directory(), bucket());
    let (requests, result) = sync(
        &rsync,
        vec![
            stat(at(10, 0), Some(3)),
            stat(at(10, 999), Some(3)),
            crc("a/b", 1),
            crc("a/b", 2),
            Reply::Written(Ok(())),
        ],
    );
    assert_eq!(requests[..4], COMPARING);
    assert_eq!(
        requests[4],
        Request::Write(WriteKind::WithMtime(Mtime { secs: 10, nanos: 999 }))
    );
    assert_eq!(result.unwrap(), updated("different crc32c"));
}

#[test]
fn the_same_checksum_overrules_another_size_or_mtime() {
    let rsync = RSync::new(directory(), bucket());
    for source in vec![(at(11, 0), Some(3)), (at(10, 0), Some(4))] {
        let (requests, result) = sync(
            &rsync,
            vec![
                stat(at(10, 0), Some(3)),
                Reply::SizeAndMt(Ok(source)),
                crc("a/b", 1),
                crc("a/b", 1),
            ],
        );
        assert_eq!(requests, COMPARING);
        assert_eq!(result.unwrap(), already_synced("same crc32c"));
    }
}

#[test]
fn another_size_or_mtime_updates_an_entry() {
    let rsync = RSync::new(directory(), bucket());
    for source in vec![(at(11, 0), Some(3)), (at(10, 0), Some(4))] {
        let (requests, result) = sync(
            &rsync,
            vec![
                stat(at(10, 0), Some(3)),
                Reply::SizeAndMt(Ok(source)),
                crc("a/b", 1),
                crc("a/b", 2),
                Reply::Written(Ok(())),
            ],
        );
        assert_eq!(requests[4], Request::Write(WriteKind::WithMtime(source.0.unwrap())));
        assert_eq!(result.unwrap(), updated("different size or mtime"));
    }
}

#[test]
fn times_and_sizes_decide_where_an_end_has_no_checksum() {
    let rsync = RSync::new(directory(), bucket());
    let without = || {
        vec![
            vec![Reply::Crc32c(Ok(None))],
            vec![crc("a/b", 1), Reply::Crc32c(Ok(None))],
        ]
    };
    for checksums in without() {
        let mut replies = vec![stat(at(10, 0), Some(3)), stat(at(10, 0), Some(3))];
        replies.extend(checksums);
        let (_, result) = sync(&rsync, replies);
        assert_eq!(result.unwrap(), already_synced("same mtime and size"));
    }
    for checksums in without() {
        let mut replies = vec![stat(at(10, 0), Some(3)), stat(at(10, 0), Some(4))];
        replies.extend(checksums);
        replies.push(Reply::Written(Ok(())));
        let (requests, result) = sync(&rsync, replies);
        assert_eq!(
            requests[requests.len() - 1],
            Request::Write(WriteKind::WithMtime(Mtime { secs: 10, nanos: 0 }))
        );
        assert_eq!(result.unwrap(), updated("different size or mtime"));
    }
}

#[test]
fn checksums_decide_where_the_destination_knows_half() {
    let rsync = RSync::new(directory(), bucket());
    let (requests, result) = sync(
        &rsync,
        vec![stat(None, Some(3)), crc("a/b", 42), crc("a/b", 42)],
    );
    assert_eq!(
        requests,
        vec![Request::DestSizeAndMt, Request::DestCrc32c, Request::SourceCrc32c]
    );
    assert_eq!(result.unwrap(), already_synced("same crc32c"));
    let (requests, _) = sync(
        &rsync,
        vec![stat(at(1, 0), None), crc("a/b", 42), crc("a/b", 42)],
    );
    assert_eq!(requests[1], Request::DestCrc32c);
}

#[test]
fn checksums_decide_where_the_source_knows_less() {
    let rsync = RSync::new(bucket(), directory()).with_restore_fs_mtime(true);
    let (requests, result) = sync(
        &rsync,
        vec![
            stat(at(10, 0), Some(3)),
            stat(None, Some(3)),
            crc("a/b", 42),
            crc("a/b", 43),
            Reply::Written(Ok(())),
        ],
    );
    assert_eq!(
        requests,
        vec![
            Request::DestSizeAndMt,
            Request::SourceSizeAndMt,
            Request::DestCrc32c,
            Request::SourceCrc32c,
            Request::Write(WriteKind::Plain),
        ]
    );
    assert_eq!(result.unwrap(), updated("different crc32c"));
}

#[test]
fn a_missing_checksum_is_not_the_same() {
    let rsync = RSync::new(directory(), bucket());
    let (requests, result) = sync(
        &rsync,
        vec![stat(None, Some(3)), Reply::Crc32c(Ok(None)), Reply::Written(Ok(()))],
    );
    assert_eq!(requests.len(), 3);
    assert_eq!(result.unwrap(), updated("no dest crc32c"));
    let (_, result) = sync(
        &rsync,
        vec![
            stat(None, Some(3)),
            crc("a/b", 1),
            Reply::Crc32c(Ok(None)),
            Reply::Written(Ok(())),
        ],
    );
    assert_eq!(result.unwrap(), updated("different crc32c"));
}

#[test]
fn a_checksum_of_another_name_is_not_the_same() {
    let rsync = RSync::new(directory(), bucket());
    let (_, result) = sync(
        &rsync,
        vec![stat(None, Some(3)), crc("a/b", 1), crc("a/c", 1), Reply::Written(Ok(()))],
    );
    assert_eq!(result.unwrap(), updated("different crc32c"));
}

#[test]
fn a_failure_ends_the_task_with_its_error() {
    let rsync = RSync::new(directory(), bucket());
    let fails = |replies: Vec<Reply>, operations: usize, text: &str| {
        let (requests, result) = sync(&rsync, replies);
        assert_eq!(requests.len(), operations);
        assert!(is_failure(&result, text));
    };
    fails(vec![Reply::SizeAndMt(Err(failure("dest")))], 1, "dest");
    fails(
        vec![stat(at(1, 0), Some(1)), Reply::SizeAndMt(Err(failure("source")))],
        2,
        "source",
    );
    fails(
        vec![stat(None, None), Reply::SizeAndMt(Err(failure("new")))],
        2,
        "new",
    );
    fails(
        vec![
            stat(at(1, 0), Some(1)),
            stat(at(1, 0), Some(1)),
            Reply::Crc32c(Err(failure("same stat"))),
        ],
        3,
        "same stat",
    );
    fails(
        vec![stat(None, Some(1)), Reply::Crc32c(Err(failure("dest crc")))],
        2,
        "dest crc",
    );
    fails(
        vec![stat(None, Some(1)), crc("a/b", 1), Reply::Crc32c(Err(failure("source crc")))],
        3,
        "source crc",
    );
    fails(
        vec![stat(None, None), stat(None, None), Reply::Written(Err(failure("write")))],
        3,
        "write",
    );
}

#[test]
fn a_reply_to_something_else_leaves_a_task_waiting() {
    let rsync = RSync::new(directory(), bucket());
    let task = match rsync.sync_entry(name("a/b")) {
        EntryStep::Pending(task) => task,
        EntryStep::Done(_) => panic!("nothing was asked for"),
    };
    match rsync.resume_entry(task, Reply::Written(Err(failure("early")))) {
        EntryStep::Pending(task) => {
            assert_eq!(task.request(), Request::DestSizeAndMt);
            assert_eq!(task.path, name("a/b"));
        }
        EntryStep::Done(_) => panic!("the task ended"),
    }
}

#[test]
fn a_second_sync_leaves_what_the_first_wrote() {
    let rsync = RSync::new(directory(), bucket());
    let source = (at(10, 5), Some(3));
    let (requests, _) = sync(
        &rsync,
        vec![stat(None, None), Reply::SizeAndMt(Ok(source)), Reply::Written(Ok(()))],
    );
    let written = match requests[2] {
        Request::Write(WriteKind::WithMtime(mtime)) => Some(mtime),
        _ => None,
    };
    let (_, result) = sync(
        &rsync,
        vec![
            stat(written, source.1),
            Reply::SizeAndMt(Ok(source)),
            crc("a/b", 9),
            crc("a/b", 9),
        ],
    );
    assert_eq!(result.unwrap(), already_synced("same mtime and size"));
}

#[test]
fn a_listing_that_fails_is_passed_on() {
    let rsync = RSync::new(directory(), bucket());
    assert!(is_failure(&rsync.sync(Err(failure("list"))), "list"));
    assert!(is_failure(&rsync.sync_filtered(Err(failure("list"))), "list"));
}

#[test]
fn entries_that_the_filters_leave_out_are_ignored() {
    let rsync = RSync::new(directory(), bucket()).with_filters(
        Some(RSyncFilter::from_str("^a/").unwrap()),
        Some(RSyncFilter::from_str("tmp$").unwrap()),
    );
    let status = |text: &str| match rsync.sync_filtered(Ok(name(text))).unwrap() {
        EntryStep::Pending(_) => None,
        EntryStep::Done(result) => Some(result.unwrap()),
    };
    let ignored = |text: &str| {
        Some(RSyncStatus::Ignored {
            reason: "Excluded by regex filter".to_string(),
            path: name(text),
        })
    };
    assert_eq!(status("a/b"), None);
    assert_eq!(status("b/b"), ignored("b/b"));
    assert_eq!(status("a/tmp"), ignored("a/tmp"));
    assert!(matches!(
        rsync.sync(Ok(name("a/tmp"))).unwrap(),
        EntryStep::Pending(_)
    ));
}

#[test]
fn one_filter_is_enough() {
    let kept = RSyncFilter::from_str("^a").unwrap();
    let only = RSync::new(directory(), bucket()).with_filters(Some(kept.clone()), None);
    assert!(only.is_match(&name("a")));
    assert!(!only.is_match(&name("b")));
    let but = RSync::new(directory(), bucket()).with_filters(None, Some(kept));
    assert!(!but.is_match(&name("a")));
    assert!(but.is_match(&name("b")));
    let none = but.with_filters(None, None);
    assert!(none.is_match(&name("a")));
}

#[test]
fn an_unselected_entry_asks_for_nothing() {
    let rsync = RSync::new(directory(), bucket());
    let (requests, result) = run(&rsync, rsync.sync_selected(name("x"), false), vec![]);
    assert!(requests.is_empty());
    assert!(matches!(result, Ok(RSyncStatus::Ignored { .. })));
    assert!(matches!(
        rsync.sync_selected(name("x"), true),
        EntryStep::Pending(_)
    ));
}

#[test]
fn checksums_alone() {
    let rsync = RSync::new(directory(), bucket());
    let (requests, result) = run(
        &rsync,
        rsync.sync_entry_crc32c(name("a/b"), None),
        vec![crc("a/b", 5), crc("a/b", 5)],
    );
    assert_eq!(requests, vec![Request::DestCrc32c, Request::SourceCrc32c]);
    assert_eq!(result.unwrap(), already_synced("same crc32c"));
}

#[test]
fn ends_hold_what_they_were_made_of() {
    match bucket().inner {
        ReaderWriterInternal::Gcs(client) => {
            assert_eq!(client.token_generator, 7);
            assert_eq!(client.bucket, "bucket");
            assert_eq!(client.prefix, "prefix");
        }
        ReaderWriterInternal::Fs(_) => panic!("not a bucket"),
    }
    match directory().inner {
        ReaderWriterInternal::Fs(client) => {
            assert_eq!(client.base_path.as_path(), Path::new("/tmp/mirror"));
        }
        ReaderWriterInternal::Gcs(_) => panic!("not a directory"),
    }
    let failed = ReaderWriter::<u8>::gcs(Err(failure("no token")));
    assert!(is_failure(&failed, "no token"));
}

#[test]
fn how_each_end_writes() {
    let mtime = Mtime { secs: -1, nanos: 7 };
    let fs: ReaderWriterInternal<u8> = ReaderWriterInternal::Fs(FsClient::new(Path::new("d")));
    assert_eq!(fs.write(Some(mtime), true), WriteKind::WithMtime(mtime));
    assert_eq!(fs.write(Some(mtime), false), WriteKind::Plain);
    assert_eq!(fs.write(None, true), WriteKind::Plain);
    let gcs = bucket().inner;
    assert_eq!(gcs.write(Some(mtime), false), WriteKind::WithMtime(mtime));
    assert_eq!(gcs.write(None, true), WriteKind::Plain);
    assert_eq!(mtime.timestamp(), -1);
}

#[test]
fn a_file_system_error_keeps_its_cause() {
    let cause = std::io::Error::new(std::io::ErrorKind::NotFound, "gone");
    match RSyncError::fs_io_error("reading", Path::new("/a/b"), cause) {
        RSyncError::FsIoError { path, message, error } => {
            assert_eq!(path.as_path(), Path::new("/a/b"));
            assert_eq!(message, "reading");
            assert_eq!(error.kind(), std::io::ErrorKind::NotFound);
        }
        _ => panic!("another error"),
    }
}

#[test]
fn errors_print_their_kind_and_what_they_hold() {
    let cause = std::io::Error::from(std::io::ErrorKind::NotFound);
    let error = RSyncError::fs_io_error("say \"hi\"", Path::new("/a/b"), cause);
    assert_eq!(
        error.to_text(),
        "FsIoError { path: \"/a/b\", message: \"say \\\"hi\\\"\", error: Kind(NotFound) }"
    );
    assert_eq!(error.to_text(), format!("{:?}", error));
    let missing = RSyncError::MissingFieldsInGcsResponse("size\n".to_string());
    assert_eq!(missing.to_text(), "MissingFieldsInGcsResponse(\"size\\n\")");
    assert_eq!(failure("Denied(403)").to_text(), "StorageError(Denied(403))");
    assert_eq!(RSyncError::EmptyRelativePathError.to_text(), "EmptyRelativePathError");
    assert_eq!(RSyncError::InvalidRegexError.to_text(), "InvalidRegexError");
    assert_eq!(fs_io_error_text("p", "m", "e"), "FsIoError { path: p, message: m, error: e }");
    assert_eq!(format!("{}", error), error.to_text());
    assert_eq!(failure("Denied(403)").to_string(), "StorageError(Denied(403))");
    assert_eq!(format!("{:?}", failure("Denied(403)")), "StorageError(Denied(403))");
}

#[test]
fn entries_are_compared_by_name_and_checksum() {
    let entry = Entry::new(&name("a"), 1);
    assert!(entry == entry.clone());
    assert!(entry != Entry::new(&name("a"), 2));
    assert!(entry != Entry::new(&name("b"), 1));
}

#[test]
fn statuses_hold_reason_and_name() {
    assert_eq!(RSyncStatus::updated("r", &name("a/b")), updated("r"));
    assert_eq!(RSyncStatus::already_synced("r", &name("a/b")), already_synced("r"));
    assert_eq!(
        RSyncStatus::ignored("r", &name("a/b")),
        RSyncStatus::Ignored { reason: "r".to_string(), path: name("a/b") }
    );
}
