use std::collections::BTreeMap;
use std::path::Path;

use gcs_rsync::entry::{EntryStep, Reply, Request};
use gcs_rsync::mirror::{synced, ExtraReply, ExtraRequest, ExtraStep, MirrorPhase, MirrorStep, Side};
use gcs_rsync::storage::{Entry, Mtime};
use gcs_rsync::{RMirrorStatus, RSync, RSyncError, RSyncResult, RSyncStatus, ReaderWriter, RelativePath, StorageError};

fn name(text: &str) -> RelativePath {
    RelativePath::new(text).unwrap()
}

fn rsync() -> RSync<u8> {
    RSync::new(
        ReaderWriter::fs(Path::new("from")),
        ReaderWriter::fs(Path::new("to")),
    )
}

fn failure(text: &str) -> RSyncError {
    RSyncError::StorageError(StorageError::new(text))
}

fn check(replies: Vec<ExtraReply>) -> (Vec<ExtraRequest>, RSyncResult<RMirrorStatus>) {
    let rsync = rsync();
    let mut requests = Vec::new();
    let mut replies = replies.into_iter();
    let mut step = rsync.delete_extras(Ok(name("x"))).unwrap();
    loop {
        match step {
            ExtraStep::Pending(task) => {
                requests.push(task.request);
                step = rsync.resume_extra(task, replies.next().unwrap());
            }
            ExtraStep::Done(result) => {
                assert!(replies.next().is_none());
                return (requests, result);
            }
        }
    }
}

#[test]
fn an_entry_that_the_source_has_is_kept() {
    let (requests, result) = check(vec![ExtraReply::Exists(Ok(true))]);
    assert_eq!(requests, vec![ExtraRequest::SourceExists]);
    assert_eq!(result.unwrap(), RMirrorStatus::NotDeleted(name("x")));
}

#[test]
fn an_entry_that_the_source_lacks_is_deleted() {
    let (requests, result) = check(vec![ExtraReply::Exists(Ok(false)), ExtraReply::Deleted(Ok(()))]);
    assert_eq!(requests, vec![ExtraRequest::SourceExists, ExtraRequest::DestDelete]);
    assert_eq!(result.unwrap(), RMirrorStatus::Deleted(name("x")));
}

#[test]
fn a_failing_check_deletes_nothing() {
    let (requests, result) = check(vec![ExtraReply::Exists(Err(failure("exists")))]);
    assert_eq!(requests, vec![ExtraRequest::SourceExists]);
    assert!(matches!(result, Err(RSyncError::StorageError(t)) if t.text == "exists"));
    let (_, result) = check(vec![
        ExtraReply::Exists(Ok(false)),
        ExtraReply::Deleted(Err(failure("delete"))),
    ]);
    assert!(matches!(result, Err(RSyncError::StorageError(t)) if t.text == "delete"));
}

#[test]
fn a_reply_to_something_else_leaves_a_check_waiting() {
    let (requests, _) = check(vec![
        ExtraReply::Deleted(Ok(())),
        ExtraReply::Exists(Ok(false)),
        ExtraReply::Exists(Ok(true)),
        ExtraReply::Deleted(Ok(())),
    ]);
    assert_eq!(
        requests,
        vec![
            ExtraRequest::SourceExists,
            ExtraRequest::SourceExists,
            ExtraRequest::DestDelete,
            ExtraRequest::DestDelete,
        ]
    );
}

#[test]
fn a_failing_listing_of_the_destination_is_passed_on() {
    let result = rsync().delete_extras(Err(failure("list")));
    assert!(matches!(result, Err(RSyncError::StorageError(t)) if t.text == "list"));
}

#[test]
fn synced_entries_keep_their_status() {
    let status = RSyncStatus::Created(name("x"));
    assert_eq!(
        synced(Ok(status)).unwrap(),
        RMirrorStatus::Synced(RSyncStatus::Created(name("x")))
    );
    assert!(matches!(
        synced(Err(failure("e"))),
        Err(RSyncError::StorageError(t)) if t.text == "e"
    ));
}

#[test]
fn the_source_comes_first_then_the_destination() {
    let rsync = rsync();
    let mut source = vec![Ok(name("s1")), Err(failure("broken")), Ok(name("s2"))].into_iter();
    let mut dest = vec![Ok(name("d1"))].into_iter();
    let mut phase = MirrorPhase::Syncing;
    let mut seen = Vec::new();
    while let Some(side) = phase.lists() {
        let listed = match side {
            Side::Source => source.next(),
            Side::Dest => dest.next(),
        };
        let (next, item) = rsync.mirror(phase, listed);
        phase = next;
        match item {
            Some(Ok(MirrorStep::Sync(EntryStep::Pending(task)))) => {
                seen.push(format!("sync {}", task.path.path()))
            }
            Some(Ok(MirrorStep::Extra(ExtraStep::Pending(task)))) => {
                seen.push(format!("check {}", task.path.path()))
            }
            Some(Ok(_)) => panic!("nothing was asked for"),
            Some(Err(_)) => seen.push("error".to_string()),
            None => {}
        }
    }
    assert_eq!(seen, vec!["sync s1", "error", "sync s2", "check d1"]);
    assert_eq!(phase, MirrorPhase::Finished);
    let (phase, item) = rsync.mirror(phase, Some(Ok(name("late"))));
    assert_eq!(phase, MirrorPhase::Finished);
    assert!(item.is_none());
}

type Store = BTreeMap<RelativePath, (u64, Mtime, u32)>;

fn stat(store: &Store, path: &RelativePath) -> Reply {
    Reply::SizeAndMt(Ok(match store.get(path) {
        Some((size, mtime, _)) => (Some(*mtime), Some(*size)),
        None => (None, None),
    }))
}

fn checksum(store: &Store, path: &RelativePath) -> Reply {
    Reply::Crc32c(Ok(store.get(path).map(|entry| Entry::new(path, entry.2))))
}

fn mirror(source: &Store, dest: &mut Store) -> Vec<RMirrorStatus> {
    let rsync = rsync().with_restore_fs_mtime(true);
    let mut source_names = source.keys().cloned().collect::<Vec<_>>().into_iter();
    let mut dest_names = dest.keys().cloned().collect::<Vec<_>>().into_iter();
    let mut phase = MirrorPhase::Syncing;
    let mut statuses = Vec::new();
    while let Some(side) = phase.lists() {
        let listed = match side {
            Side::Source => source_names.next().map(Ok),
            Side::Dest => dest_names.next().map(Ok),
        };
        let (next, item) = rsync.mirror(phase, listed);
        phase = next;
        let result = match item {
            Some(Ok(MirrorStep::Sync(mut step))) => loop {
                match step {
                    EntryStep::Pending(task) => {
                        let reply = match task.request() {
                            Request::DestSizeAndMt => stat(dest, &task.path),
                            Request::SourceSizeAndMt => stat(source, &task.path),
                            Request::Write(_) => {
                                dest.insert(task.path.clone(), source[&task.path]);
                                Reply::Written(Ok(()))
                            }
                            Request::DestCrc32c => checksum(dest, &task.path),
                            Request::SourceCrc32c => checksum(source, &task.path),
                        };
                        step = rsync.resume_entry(task, reply);
                    }
                    EntryStep::Done(result) => break synced(result),
                }
            },
            Some(Ok(MirrorStep::Extra(mut step))) => loop {
                match step {
                    ExtraStep::Pending(task) => {
                        let reply = match task.request {
                            ExtraRequest::SourceExists => {
                                ExtraReply::Exists(Ok(source.contains_key(&task.path)))
                            }
                            ExtraRequest::DestDelete => {
                                dest.remove(&task.path);
                                ExtraReply::Deleted(Ok(()))
                            }
                        };
                        step = rsync.resume_extra(task, reply);
                    }
                    ExtraStep::Done(result) => break result,
                }
            },
            Some(Err(e)) => Err(e),
            None => continue,
        };
        statuses.push(result.unwrap());
    }
    statuses
}

#[test]
fn mirroring_makes_the_destination_hold_what_the_source_holds() {
    let mtime = |secs: i64| Mtime { secs, nanos: 0 };
    let source: Store = vec![
        (name("new"), (1, mtime(1), 1)),
        (name("same"), (2, mtime(2), 2)),
        (name("changed"), (3, mtime(3), 3)),
        (name("hidden"), (5, mtime(5), 5)),
    ]
    .into_iter()
    .collect();
    let mut dest: Store = vec![
        (name("same"), (2, mtime(2), 2)),
        (name("changed"), (3, mtime(30), 30)),
        (name("extra"), (4, mtime(4), 4)),
        (name("hidden"), (5, mtime(5), 50)),
    ]
    .into_iter()
    .collect();
    let statuses = mirror(&source, &mut dest);
    assert_eq!(dest, source);
    assert_eq!(
        statuses,
        vec![
            RMirrorStatus::Synced(RSyncStatus::updated("different size or mtime", &name("changed"))),
            RMirrorStatus::Synced(RSyncStatus::updated("different crc32c", &name("hidden"))),
            RMirrorStatus::Synced(RSyncStatus::Created(name("new"))),
            RMirrorStatus::Synced(RSyncStatus::already_synced("same mtime and size", &name("same"))),
            RMirrorStatus::NotDeleted(name("changed")),
            RMirrorStatus::Deleted(name("extra")),
            RMirrorStatus::NotDeleted(name("hidden")),
            RMirrorStatus::NotDeleted(name("same")),
        ]
    );
    for status in mirror(&source, &mut dest) {
        assert!(matches!(
            status,
            RMirrorStatus::Synced(RSyncStatus::AlreadySynced { .. }) | RMirrorStatus::NotDeleted(_)
        ));
    }
    assert_eq!(dest, source);
}
