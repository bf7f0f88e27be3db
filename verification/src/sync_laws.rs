//! What synchronising does, told from what the two ends answer.

use crate::entry::EntryStepView;
use crate::entry::EntryTaskView;
use crate::entry::ReplyView;
use crate::entry::Request;
use crate::entry::TaskStateView;
use crate::error::RSyncError;
use crate::laws::Answers;
use crate::laws::Asked;
use crate::laws::Course;
use crate::rsync::RSync;
use crate::status::RSyncStatusView;
use crate::storage::Mtime;
use crate::storage::SizeAndMt;
use crate::storage::WriteKind;
use vstd::prelude::*;

verus! {

/// Every operation that synchronising an entry asks for is on that entry, the
/// write included.
pub proof fn law_operations_are_on_the_entry<T>(rsync: RSync<T>, name: Seq<char>, answers: Answers)
    ensures
        ({
            let c = crate::laws::course(
                rsync.writer(),
                crate::entry::first_step(name),
                answers,
            );
            forall|i: int| 0 <= i < c.requests.len() ==> (#[trigger] c.requests[i]).path == name
        }),
{
    crate::laws::law_entry_course(rsync.writer(), name, answers);
}

/// A reply never takes a task to another entry: the task that follows is on the
/// same entry, and so is every report that a task makes of its own.
pub proof fn law_task_stays_on_its_entry<T>(
    rsync: RSync<T>,
    task: EntryTaskView,
    reply: ReplyView,
)
    ensures
        match crate::entry::next_step(rsync.writer(), task, reply) {
            EntryStepView::Pending(t) => {
                &&& t.path == task.path
                &&& !(task.state is Writing) ==> (t.state matches TaskStateView::Writing {
                    status,
                    ..
                } ==> (status == RSyncStatusView::Created(task.path) || (
                status matches RSyncStatusView::Updated { path, .. } && path == task.path)))
            },
            EntryStepView::Done(Ok(status)) => match task.state {
                TaskStateView::Writing { status: s, .. } => status == s,
                _ => status matches RSyncStatusView::AlreadySynced { path, .. } && path
                    == task.path,
            },
            EntryStepView::Done(Err(e)) => true,
        },
{
}

/// A reply to another operation than the one that a task waits for leaves the task
/// as it is.
pub proof fn law_other_reply_changes_nothing<T>(
    rsync: RSync<T>,
    task: EntryTaskView,
    reply: ReplyView,
)
    requires
        match task.state {
            TaskStateView::DestStat => !(reply is SizeAndMt),
            TaskStateView::SourceStat { .. } => !(reply is SizeAndMt),
            TaskStateView::NewSourceStat => !(reply is SizeAndMt),
            TaskStateView::DestCrc { .. } => !(reply is Crc32c),
            TaskStateView::SourceCrc { .. } => !(reply is Crc32c),
            TaskStateView::Writing { .. } => !(reply is Written),
        },
    ensures
        crate::entry::next_step(rsync.writer(), task, reply) == EntryStepView::Pending(task),
{
}

/// Synchronising an entry starts with asking the destination for the size and the
/// time of last modification, whatever the entry is named.
pub proof fn law_sync_asks_the_destination_first(name: Seq<char>)
    ensures
        crate::entry::first_step(name) matches EntryStepView::Pending(task) && task.path == name
            && task.state is DestStat && task.request() == Request::DestSizeAndMt,
{
}

/// What a task asks for follows from how far it has come.
pub proof fn law_request_of_a_task(task: EntryTaskView)
    ensures
        task.request() is DestSizeAndMt <==> task.state is DestStat,
        task.request() is SourceSizeAndMt <==> task.state is SourceStat || task.state
            is NewSourceStat,
        task.request() is DestCrc32c <==> task.state is DestCrc,
        task.request() is SourceCrc32c <==> task.state is SourceCrc,
        task.state matches TaskStateView::Writing { kind, .. } ==> task.request()
            == Request::Write(kind),
{
}

/// Each operation is asked for if and only if it is needed. The destination is
/// always asked for time and size. The source is asked for them where the
/// destination knows both or neither. Checksums are asked for where the destination
/// knows time or size, of the source only where the destination has one.
pub proof fn law_operations_are_asked_for_iff_needed<T>(
    rsync: RSync<T>,
    name: Seq<char>,
    answers: Answers,
)
    ensures
        ({
            let asked = crate::laws::course(
                rsync.writer(),
                crate::entry::first_step(name),
                answers,
            ).requests;
            let compares_crc32c = match answers.dest_stat {
                Ok((Some(_), Some(_))) => answers.source_stat is Ok,
                Ok((Some(_), None)) => true,
                Ok((None, Some(_))) => true,
                Ok((None, None)) => false,
                Err(_) => false,
            };
            &&& asked.contains(Asked { path: name, request: Request::DestSizeAndMt })
            &&& asked.contains(Asked { path: name, request: Request::SourceSizeAndMt }) <==> (
            match answers.dest_stat {
                Ok((Some(_), Some(_))) => true,
                Ok((Some(_), None)) => false,
                Ok((None, Some(_))) => false,
                Ok((None, None)) => true,
                Err(_) => false,
            })
            &&& asked.contains(Asked { path: name, request: Request::DestCrc32c })
                <==> compares_crc32c
            &&& asked.contains(Asked { path: name, request: Request::SourceCrc32c })
                <==> compares_crc32c && answers.dest_crc32c matches Ok(Some(_))
        }),
{
    crate::laws::law_entry_course(rsync.writer(), name, answers);
    let asked = crate::laws::entry_course(rsync.writer(), name, answers).requests;
    assert(asked[0] == Asked { path: name, request: Request::DestSizeAndMt });
    match answers.dest_stat {
        Err(_) => {},
        Ok((None, None)) => {
            assert(asked[1] == Asked { path: name, request: Request::SourceSizeAndMt });
        },
        Ok((Some(_), Some(_))) => {
            assert(asked[1] == Asked { path: name, request: Request::SourceSizeAndMt });
            if answers.source_stat is Ok {
                assert(asked[2] == Asked { path: name, request: Request::DestCrc32c });
                if answers.dest_crc32c matches Ok(Some(_)) {
                    assert(asked[3] == Asked { path: name, request: Request::SourceCrc32c });
                }
            }
        },
        Ok(_) => {
            assert(asked[1] == Asked { path: name, request: Request::DestCrc32c });
            if answers.dest_crc32c matches Ok(Some(_)) {
                assert(asked[2] == Asked { path: name, request: Request::SourceCrc32c });
            }
        },
    }
}

/// The place of an operation among those that synchronising an entry can take.
pub open spec fn place(request: Request) -> int {
    match request {
        Request::DestSizeAndMt => 0,
        Request::SourceSizeAndMt => 1,
        Request::DestCrc32c => 2,
        Request::SourceCrc32c => 3,
        Request::Write(_) => 4,
    }
}

/// Operations are asked for in a fixed order, each at most once: time and size, of
/// the destination and then of the source, the checksums, of the destination and
/// then of the source, and the write.
pub proof fn law_operations_come_in_order<T>(rsync: RSync<T>, name: Seq<char>, answers: Answers)
    ensures
        ({
            let asked = crate::laws::course(
                rsync.writer(),
                crate::entry::first_step(name),
                answers,
            ).requests;
            forall|i: int, j: int|
                0 <= i < j < asked.len() ==> place((#[trigger] asked[i]).request) < place(
                    (#[trigger] asked[j]).request,
                )
        }),
{
    crate::laws::law_entry_course(rsync.writer(), name, answers);
}

/// An entry that the destination lacks is written and reported as created; an entry
/// is reported as created only then.
pub proof fn law_entry_that_the_destination_lacks<T>(
    rsync: RSync<T>,
    name: Seq<char>,
    answers: Answers,
)
    ensures
        ({
            let c = crate::laws::course(
                rsync.writer(),
                crate::entry::first_step(name),
                answers,
            );
            let lacks = answers.dest_stat == Ok::<SizeAndMt, RSyncError>((None, None));
            &&& lacks && answers.source_stat is Ok ==> c.requests.last().request is Write
                && c.requests.last().path == name && c.result == (match answers.written {
                Ok(_) => Ok::<RSyncStatusView, RSyncError>(RSyncStatusView::Created(name)),
                Err(e) => Err(e),
            })
            &&& lacks ==> (answers.source_stat matches Err(e) ==> c.result == Err::<
                RSyncStatusView,
                RSyncError,
            >(e))
            &&& c.result matches Ok(RSyncStatusView::Created(_)) ==> lacks
        }),
{
    crate::laws::law_entry_course(rsync.writer(), name, answers);
}

/// An entry that the destination has is left as it is if the two ends have the same
/// checksum or, where an end has none, the same seconds and size; else it is written
/// and reported as updated. The reason tells which of the two was looked at.
pub proof fn law_entry_that_the_destination_has<T>(
    rsync: RSync<T>,
    name: Seq<char>,
    answers: Answers,
)
    requires
        answers.dest_stat matches Ok(stat) && (stat.0 is Some || stat.1 is Some),
        answers.dest_stat matches Ok((Some(_), Some(_))) ==> answers.source_stat is Ok,
        answers.dest_crc32c is Ok,
        answers.dest_crc32c matches Ok(Some(_)) ==> answers.source_crc32c is Ok,
    ensures
        ({
            let c = crate::laws::course(
                rsync.writer(),
                crate::entry::first_step(name),
                answers,
            );
            let (same_stat, other_stat) = match (answers.dest_stat, answers.source_stat) {
                (Ok((Some(dm), Some(ds))), Ok((Some(sm), Some(ss)))) => (
                    dm.secs == sm.secs && ds == ss,
                    dm.secs != sm.secs || ds != ss,
                ),
                _ => (false, false),
            };
            let same = match (answers.dest_crc32c, answers.source_crc32c) {
                (Ok(Some(d)), Ok(Some(s))) => d.path == s.path && d.crc32c == s.crc32c,
                _ => same_stat,
            };
            &&& same ==> {
                &&& forall|i: int|
                    0 <= i < c.requests.len() ==> !((#[trigger] c.requests[i]).request is Write)
                &&& c.result == Ok::<RSyncStatusView, RSyncError>(
                    RSyncStatusView::AlreadySynced {
                        reason: if same_stat {
                            "same mtime and size"@
                        } else {
                            "same crc32c"@
                        },
                        path: name,
                    },
                )
            }
            &&& !same ==> {
                &&& c.requests.last().request is Write
                &&& c.requests.last().path == name
                &&& c.result == (match answers.written {
                    Ok(_) => Ok::<RSyncStatusView, RSyncError>(
                        RSyncStatusView::Updated {
                            reason: if other_stat {
                                "different size or mtime"@
                            } else if answers.dest_crc32c == Ok::<
                                Option<crate::storage::EntryView>,
                                RSyncError,
                            >(None) {
                                "no dest crc32c"@
                            } else {
                                "different crc32c"@
                            },
                            path: name,
                        },
                    ),
                    Err(e) => Err(e),
                })
            }
        }),
{
    crate::laws::law_entry_course(rsync.writer(), name, answers);
}

/// An operation that fails before the write is the last one, its error is what
/// synchronising the entry comes to, and nothing is written.
pub proof fn law_first_failure_ends_a_sync<T>(rsync: RSync<T>, name: Seq<char>, answers: Answers)
    ensures
        ({
            let c = crate::laws::course(
                rsync.writer(),
                crate::entry::first_step(name),
                answers,
            );
            let failed = match answers.dest_stat {
                Err(e) => Some(e),
                Ok((None, None)) => match answers.source_stat {
                    Err(e) => Some(e),
                    Ok(_) => None,
                },
                Ok((mtime, size)) => match (mtime is Some && size is Some, answers.source_stat) {
                    (true, Err(e)) => Some(e),
                    _ => match answers.dest_crc32c {
                        Err(e) => Some(e),
                        Ok(None) => None,
                        Ok(Some(_)) => match answers.source_crc32c {
                            Err(e) => Some(e),
                            Ok(_) => None,
                        },
                    },
                },
            };
            failed matches Some(e) ==> {
                &&& c.result == Err::<RSyncStatusView, RSyncError>(e)
                &&& forall|i: int|
                    0 <= i < c.requests.len() ==> !((#[trigger] c.requests[i]).request is Write)
            }
        }),
{
    crate::laws::law_entry_course(rsync.writer(), name, answers);
}

/// The name of an entry plays no part in what is done: two entries of which the two
/// ends answer the same are asked for the same operations, to the same end.
pub proof fn law_names_play_no_part<T>(
    rsync: RSync<T>,
    name: Seq<char>,
    other: Seq<char>,
    answers: Answers,
)
    ensures
        ({
            let c = crate::laws::course(
                rsync.writer(),
                crate::entry::first_step(name),
                answers,
            );
            let d = crate::laws::course(
                rsync.writer(),
                crate::entry::first_step(other),
                answers,
            );
            &&& c.requests.len() == d.requests.len()
            &&& forall|i: int|
                0 <= i < c.requests.len() ==> (#[trigger] c.requests[i]).request
                    == d.requests[i].request
            &&& match (c.result, d.result) {
                (Err(e), Err(f)) => e == f,
                (Ok(RSyncStatusView::Created(_)), Ok(RSyncStatusView::Created(_))) => true,
                (
                    Ok(RSyncStatusView::Updated { reason, .. }),
                    Ok(RSyncStatusView::Updated { reason: r, .. }),
                ) => reason == r,
                (
                    Ok(RSyncStatusView::AlreadySynced { reason, .. }),
                    Ok(RSyncStatusView::AlreadySynced { reason: r, .. }),
                ) => reason == r,
                _ => false,
            }
        }),
{
    crate::laws::law_entry_course(rsync.writer(), name, answers);
    crate::laws::law_entry_course(rsync.writer(), other, answers);
}

/// Whatever the source and the filters are, a write is on the entry that is handed
/// over, and carries the time that is handed over if and only if the destination is
/// a bucket or times are to be restored. Once written, the entry has come to the
/// status that is handed over.
pub proof fn law_write_of_an_entry<T>(
    rsync: RSync<T>,
    path: Seq<char>,
    mtime: Option<Mtime>,
    status: RSyncStatusView,
    answers: Answers,
)
    ensures
        ({
            let c = crate::laws::course(
                rsync.writer(),
                crate::entry::write_step(rsync.writer(), path, mtime, status),
                answers,
            );
            &&& c.requests.len() == 1
            &&& c.requests[0].path == path
            &&& mtime is Some && (rsync.dest is Gcs || rsync.restore_fs_mtime)
                <==> c.requests[0].request == Request::Write(WriteKind::WithMtime(mtime->0))
            &&& mtime is None || (rsync.dest is Fs && !rsync.restore_fs_mtime)
                <==> c.requests[0].request == Request::Write(WriteKind::Plain)
            &&& c.result == (match answers.written {
                Ok(_) => Ok::<RSyncStatusView, RSyncError>(status),
                Err(e) => Err(e),
            })
        }),
{
    reveal_with_fuel(crate::laws::course, 3);
}

/// Whatever the source and the filters are, the write of a synchronised entry
/// carries the time that the source told if and only if the destination is a bucket
/// or times are to be restored, and the destination lacks the entry or both ends
/// know both time and size.
pub proof fn law_time_that_a_sync_writes<T>(
    rsync: RSync<T>,
    name: Seq<char>,
    answers: Answers,
    i: int,
)
    requires
        0 <= i < crate::laws::course(
            rsync.writer(),
            crate::entry::first_step(name),
            answers,
        ).requests.len(),
    ensures
        ({
            let asked = crate::laws::course(
                rsync.writer(),
                crate::entry::first_step(name),
                answers,
            ).requests[i];
            let takes_times = rsync.dest is Gcs || rsync.restore_fs_mtime;
            asked.request matches Request::Write(kind) ==> kind == (match (
                answers.dest_stat,
                answers.source_stat,
            ) {
                (Ok((None, None)), Ok((Some(m), _))) if takes_times => WriteKind::WithMtime(m),
                (Ok((Some(_), Some(_))), Ok((Some(m), Some(_)))) if takes_times =>
                WriteKind::WithMtime(m),
                _ => WriteKind::Plain,
            })
        }),
{
    crate::laws::law_entry_course(rsync.writer(), name, answers);
}

/// Only the kind of the destination and whether times are to be restored bear on
/// what synchronising does to an entry that is selected: the source, the filters and
/// the place of the destination do not.
pub proof fn law_only_the_kind_of_destination_matters<T, U>(
    one: RSync<T>,
    other: RSync<U>,
    task: EntryTaskView,
    reply: ReplyView,
    path: Seq<char>,
    mtime: Option<Mtime>,
    status: RSyncStatusView,
)
    requires
        one.dest is Fs <==> other.dest is Fs,
        one.restore_fs_mtime == other.restore_fs_mtime,
    ensures
        crate::entry::next_step(one.writer(), task, reply) == crate::entry::next_step(
            other.writer(),
            task,
            reply,
        ),
        crate::entry::write_step(one.writer(), path, mtime, status) == crate::entry::write_step(
            other.writer(),
            path,
            mtime,
            status,
        ),
{
}

/// A bucket takes every time, so whether times are to be restored does not matter to
/// it.
pub proof fn law_restoring_times_is_for_directories<T>(
    rsync: RSync<T>,
    restore_fs_mtime: bool,
    task: EntryTaskView,
    reply: ReplyView,
)
    requires
        rsync.dest is Gcs,
    ensures
        crate::entry::next_step(rsync.writer(), task, reply) == crate::entry::next_step(
            (RSync { restore_fs_mtime, ..rsync }).writer(),
            task,
            reply,
        ),
{
}

/// A name is selected if and only if the first filter is missing or matches it, and
/// the second filter is missing or does not match it.
pub proof fn law_selected_iff<T>(rsync: RSync<T>, name: Seq<char>)
    ensures
        rsync.selects(name) <==> (rsync.included is None || rsync.included->0@.contains(name)) && (
        rsync.excluded is None || !rsync.excluded->0@.contains(name)),
{
}

/// Only what the filters match bears on what is selected: two synchronisations whose
/// filters match the same names select the same names.
pub proof fn law_selection_is_what_the_filters_match<T, U>(
    one: RSync<T>,
    other: RSync<U>,
    name: Seq<char>,
)
    requires
        one.included is Some <==> other.included is Some,
        one.excluded is Some <==> other.excluded is Some,
        one.included is Some ==> (one.included->0@.contains(name)
            <==> other.included->0@.contains(name)),
        one.excluded is Some ==> (one.excluded->0@.contains(name)
            <==> other.excluded->0@.contains(name)),
    ensures
        one.selects(name) <==> other.selects(name),
{
}

/// With filters, an entry takes the course that it takes without them if the first
/// filter is missing or matches its name and the second is missing or does not. If
/// not, nothing is asked for, and the entry is reported as ignored.
pub proof fn law_filtered_sync<T>(rsync: RSync<T>, name: Seq<char>, answers: Answers)
    ensures
        ({
            let c = crate::laws::course(
                rsync.writer(),
                crate::entry::filtered_step(name, rsync.selects(name)),
                answers,
            );
            let without = RSync { included: None, excluded: None, ..rsync };
            if (rsync.included is None || rsync.included->0@.contains(name)) && (rsync.excluded
                is None || !rsync.excluded->0@.contains(name)) {
                c == crate::laws::course(
                    without.writer(),
                    crate::entry::first_step(name),
                    answers,
                )
            } else {
                c == (Course {
                    requests: Seq::empty(),
                    result: Ok(
                        RSyncStatusView::Ignored { reason: "Excluded by regex filter"@, path: name },
                    ),
                })
            }
        }),
{
}

} // verus!
