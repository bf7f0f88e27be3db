//! What holds of a whole synchronisation.

use crate::entry::Compared;
use crate::entry::EntryStepView;
use crate::entry::Reply;
use crate::entry::ReplyView;
use crate::entry::Request;
use crate::entry::TaskStateView;
use crate::entry::Writer;
use crate::error::RSyncError;
use crate::path::RelativePath;
use crate::rsync::RSync;
use crate::status::RSyncStatusView;
use crate::storage::Entry;
use crate::storage::EntryView;
use crate::storage::Mtime;
use crate::storage::Size;
use crate::storage::SizeAndMt;
use crate::storage::WriteKind;
use vstd::prelude::*;

verus! {

/// What each operation on one entry comes to, where it is asked for.
pub struct Answers {
    pub dest_stat: Result<SizeAndMt, RSyncError>,
    pub source_stat: Result<SizeAndMt, RSyncError>,
    pub dest_crc32c: Result<Option<EntryView>, RSyncError>,
    pub source_crc32c: Result<Option<EntryView>, RSyncError>,
    pub written: Result<(), RSyncError>,
}

impl Answers {
    /// The reply to a request.
    pub open spec fn reply(self, request: Request) -> ReplyView {
        match request {
            Request::DestSizeAndMt => ReplyView::SizeAndMt(self.dest_stat),
            Request::SourceSizeAndMt => ReplyView::SizeAndMt(self.source_stat),
            Request::DestCrc32c => ReplyView::Crc32c(self.dest_crc32c),
            Request::SourceCrc32c => ReplyView::Crc32c(self.source_crc32c),
            Request::Write(_) => ReplyView::Written(self.written),
        }
    }

    /// The error with which the operation fails, if it does.
    pub open spec fn failure(self, request: Request) -> Option<RSyncError> {
        match self.reply(request) {
            ReplyView::SizeAndMt(Err(e)) => Some(e),
            ReplyView::Crc32c(Err(e)) => Some(e),
            ReplyView::Written(Err(e)) => Some(e),
            _ => None,
        }
    }

    /// What comparing times and sizes tells, where both ends know both.
    pub open spec fn compared(self) -> Option<Compared> {
        match (self.dest_stat, self.source_stat) {
            (
                Ok((Some(dest_mtime), Some(dest_size))),
                Ok((Some(source_mtime), Some(source_size))),
            ) => Some(
                Compared {
                    same: dest_mtime.secs == source_mtime.secs && dest_size == source_size,
                    mtime: source_mtime,
                },
            ),
            _ => None,
        }
    }

    /// Both ends know the time and the size, with the same seconds and the same
    /// size.
    pub open spec fn same_stat(self) -> bool {
        self.compared() matches Some(c) && c.same
    }

    /// The destination knows the time or the size: it has the entry.
    pub open spec fn dest_exists(self) -> bool {
        self.dest_stat matches Ok(stat) && !(stat.0 is None && stat.1 is None)
    }

    /// Both ends have a checksum.
    pub open spec fn both_crc32c(self) -> bool {
        self.dest_crc32c matches Ok(Some(_)) && self.source_crc32c matches Ok(Some(_))
    }

    /// Both ends have a checksum, and it is the same.
    pub open spec fn same_crc32c(self) -> bool {
        self.both_crc32c() && self.dest_crc32c == self.source_crc32c
    }

    /// No operation that finding out takes fails: the source is asked for time and
    /// size where the destination knows both, and for a checksum where the
    /// destination has one.
    pub open spec fn comparison_succeeds(self) -> bool {
        &&& self.dest_stat matches Ok((Some(_), Some(_))) ==> self.source_stat is Ok
        &&& self.dest_crc32c is Ok
        &&& self.dest_crc32c matches Ok(Some(_)) ==> self.source_crc32c is Ok
    }

    /// The entry is the same at both ends: by the checksums where both ends have
    /// one, else by time and size.
    pub open spec fn same(self) -> bool {
        if self.both_crc32c() {
            self.same_crc32c()
        } else {
            self.same_stat()
        }
    }
}

/// An operation that a course asks for, and the name of the entry that it is on.
pub struct Asked {
    pub path: Seq<char>,
    pub request: Request,
}

/// The course of an entry: the operations, each on an entry, in the order in which
/// they are asked for, and what it all comes to.
pub struct Course {
    pub requests: Seq<Asked>,
    pub result: Result<RSyncStatusView, RSyncError>,
}

/// A bound on the operations that are still to come.
pub open spec fn steps_left(step: EntryStepView) -> nat {
    match step {
        EntryStepView::Done(_) => 0,
        EntryStepView::Pending(task) => match task.state {
            TaskStateView::Writing { .. } => 1,
            TaskStateView::SourceCrc { .. } => 2,
            TaskStateView::NewSourceStat => 2,
            TaskStateView::DestCrc { .. } => 3,
            TaskStateView::SourceStat { .. } => 4,
            TaskStateView::DestStat => 5,
        },
    }
}

/// The course from a step on, each request getting its answer.
pub open spec fn course(writer: Writer, step: EntryStepView, answers: Answers) -> Course
    decreases steps_left(step),
{
    match step {
        EntryStepView::Done(result) => Course { requests: Seq::empty(), result },
        EntryStepView::Pending(task) => {
            let request = task.request();
            let rest = course(
                writer,
                crate::entry::next_step(writer, task, answers.reply(request)),
                answers,
            );
            Course {
                requests: seq![Asked { path: task.path, request }] + rest.requests,
                result: rest.result,
            }
        },
    }
}

/// The course of copying an entry, after the operations `before`.
pub open spec fn copy_course(
    path: Seq<char>,
    before: Seq<Asked>,
    kind: WriteKind,
    answers: Answers,
    status: RSyncStatusView,
) -> Course {
    Course {
        requests: before.push(Asked { path, request: Request::Write(kind) }),
        result: match answers.written {
            Ok(_) => Ok(status),
            Err(e) => Err(e),
        },
    }
}

/// The course once the checksums are known, each where there is one, after the
/// operations `before`. Where both ends have a checksum, the checksums decide;
/// else times and sizes do, where they were compared.
pub open spec fn settled_course(
    writer: Writer,
    path: Seq<char>,
    before: Seq<Asked>,
    compared: Option<Compared>,
    dest: Option<EntryView>,
    source: Option<EntryView>,
    answers: Answers,
) -> Course {
    let same_stat = compared matches Some(c) && c.same;
    let other_stat = compared matches Some(c) && !c.same;
    let same = if dest is Some && source is Some {
        dest == source
    } else {
        same_stat
    };
    if same {
        let reason = if same_stat {
            "same mtime and size"@
        } else {
            "same crc32c"@
        };
        Course { requests: before, result: Ok(RSyncStatusView::AlreadySynced { reason, path }) }
    } else {
        let mtime = match compared {
            Some(c) => Some(c.mtime),
            None => None,
        };
        let reason = if other_stat {
            "different size or mtime"@
        } else if dest is None {
            "no dest crc32c"@
        } else {
            "different crc32c"@
        };
        copy_course(
            path,
            before,
            writer.kind(mtime),
            answers,
            RSyncStatusView::Updated { reason, path },
        )
    }
}

/// The course of comparing checksums, after the operations `before`.
pub open spec fn crc32c_course(
    writer: Writer,
    path: Seq<char>,
    before: Seq<Asked>,
    compared: Option<Compared>,
    answers: Answers,
) -> Course {
    let asked_dest = before.push(Asked { path, request: Request::DestCrc32c });
    let asked_both = asked_dest.push(Asked { path, request: Request::SourceCrc32c });
    match answers.dest_crc32c {
        Err(e) => Course { requests: asked_dest, result: Err(e) },
        Ok(None) => settled_course(writer, path, asked_dest, compared, None, None, answers),
        Ok(Some(dest)) => match answers.source_crc32c {
            Err(e) => Course { requests: asked_both, result: Err(e) },
            Ok(source) => settled_course(
                writer,
                path,
                asked_both,
                compared,
                Some(dest),
                source,
                answers,
            ),
        },
    }
}

/// The course of synchronising an entry.
pub open spec fn entry_course(writer: Writer, path: Seq<char>, answers: Answers) -> Course {
    let asked_dest = seq![Asked { path, request: Request::DestSizeAndMt }];
    let asked_both = asked_dest.push(Asked { path, request: Request::SourceSizeAndMt });
    match answers.dest_stat {
        Err(e) => Course { requests: asked_dest, result: Err(e) },
        Ok((None, None)) => match answers.source_stat {
            Err(e) => Course { requests: asked_both, result: Err(e) },
            Ok((source_mtime, _)) => copy_course(
                path,
                asked_both,
                writer.kind(source_mtime),
                answers,
                RSyncStatusView::Created(path),
            ),
        },
        Ok((Some(_), Some(_))) => match answers.source_stat {
            Err(e) => Course { requests: asked_both, result: Err(e) },
            Ok(_) => crc32c_course(writer, path, asked_both, answers.compared(), answers),
        },
        Ok(_) => crc32c_course(writer, path, asked_dest, None, answers),
    }
}

/// Synchronising an entry asks for exactly the operations of [`entry_course`],
/// in that order, and ends with its result.
pub proof fn law_entry_course(writer: Writer, path: Seq<char>, answers: Answers)
    ensures
        course(writer, crate::entry::first_step(path), answers) == entry_course(
            writer,
            path,
            answers,
        ),
{
    reveal_with_fuel(course, 7);
    let c = course(writer, crate::entry::first_step(path), answers);
    let d = entry_course(writer, path, answers);
    assert(c.requests =~= d.requests);
    assert(c.result == d.result);
}

/// Whether the course copies the entry: it asks for the write, and the write
/// does not fail.
pub open spec fn copies(c: Course, answers: Answers) -> bool {
    answers.written is Ok && exists|i: int|
        0 <= i < c.requests.len() && (#[trigger] c.requests[i]).request is Write
}

/// An entry is reported as created or updated if and only if it was copied, and
/// every report names the entry. It is written at most once, and nothing is asked
/// for after that.
pub proof fn law_reported_as_copied_iff_copied(writer: Writer, path: Seq<char>, answers: Answers)
    ensures
        ({
            let c = course(writer, crate::entry::first_step(path), answers);
            &&& copies(c, answers) <==> (c.result matches Ok(status) && status.is_copied())
            &&& c.result matches Ok(status) ==> status.path() == path && !(status is Ignored)
            &&& forall|i: int|
                0 <= i < c.requests.len() && (#[trigger] c.requests[i]).request is Write ==> i
                    == c.requests.len() - 1
        }),
{
    law_entry_course(writer, path, answers);
    let c = entry_course(writer, path, answers);
    if c.result matches Ok(status) && status.is_copied() {
        assert(c.requests[c.requests.len() - 1].request is Write);
    }
}

/// An entry that the destination has already is synchronised by comparing its
/// checksums, where both ends have one: the same checksum leaves it as it is, and
/// another one has it written, whatever times and sizes say.
pub proof fn law_checksums_decide(writer: Writer, path: Seq<char>, answers: Answers)
    requires
        answers.dest_stat != Ok::<SizeAndMt, RSyncError>((None, None)),
        answers.both_crc32c(),
    ensures
        ({
            let c = course(writer, crate::entry::first_step(path), answers);
            c.result matches Ok(status) ==> {
                &&& answers.same_crc32c() ==> status is AlreadySynced && !copies(c, answers)
                &&& !answers.same_crc32c() ==> status is Updated && copies(c, answers)
            }
        }),
{
    law_entry_course(writer, path, answers);
    law_reported_as_copied_iff_copied(writer, path, answers);
}

/// An entry that the destination has already, where an end has no checksum, is
/// left as it is if both ends know the same seconds and the same size, and written
/// if not. A difference below the second is none.
pub proof fn law_stat_decides_without_checksums(writer: Writer, path: Seq<char>, answers: Answers)
    requires
        answers.dest_stat != Ok::<SizeAndMt, RSyncError>((None, None)),
        !answers.both_crc32c(),
    ensures
        ({
            let c = course(writer, crate::entry::first_step(path), answers);
            c.result matches Ok(status) ==> {
                &&& answers.same_stat() ==> status is AlreadySynced && !copies(c, answers)
                &&& !answers.same_stat() ==> status is Updated && copies(c, answers)
            }
        }),
{
    law_entry_course(writer, path, answers);
    law_reported_as_copied_iff_copied(writer, path, answers);
}

/// An entry is left as it is if and only if the destination has it, it is the same
/// at both ends, and finding that out does not fail. The reason is the same time
/// and size where those are the same, and else the same checksum.
pub proof fn law_left_as_it_is_iff_same(writer: Writer, path: Seq<char>, answers: Answers)
    ensures
        ({
            let result = course(writer, crate::entry::first_step(path), answers).result;
            &&& (result matches Ok(status) && status is AlreadySynced) <==> answers.dest_exists()
                && answers.comparison_succeeds() && answers.same()
            &&& result matches Ok(RSyncStatusView::AlreadySynced { reason, .. }) ==> reason == (
            if answers.same_stat() {
                "same mtime and size"@
            } else {
                "same crc32c"@
            })
        }),
{
    law_entry_course(writer, path, answers);
}

/// An entry is reported as created if and only if the destination knows neither
/// its time nor its size, and neither the source's answer nor the write fails.
pub proof fn law_created_iff_new(writer: Writer, path: Seq<char>, answers: Answers)
    ensures
        ({
            let result = course(writer, crate::entry::first_step(path), answers).result;
            result == Ok::<RSyncStatusView, RSyncError>(RSyncStatusView::Created(path)) <==> (
            answers.dest_stat == Ok::<SizeAndMt, RSyncError>((None, None)) && answers.source_stat
                is Ok && answers.written is Ok)
        }),
{
    law_entry_course(writer, path, answers);
}

/// Synchronising an entry fails if and only if the last operation asked for
/// fails, and then with its error. No earlier operation failed.
pub proof fn law_failure_ends_the_course(writer: Writer, path: Seq<char>, answers: Answers)
    ensures
        ({
            let c = course(writer, crate::entry::first_step(path), answers);
            &&& c.requests.len() > 0
            &&& answers.failure(c.requests.last().request) == (match c.result {
                Ok(_) => None,
                Err(e) => Some(e),
            })
            &&& forall|i: int|
                0 <= i < c.requests.len() - 1 ==> answers.failure((#[trigger] c.requests[i]).request) is None
        }),
{
    law_entry_course(writer, path, answers);
}

/// Synchronising an entry takes at most five operations.
pub proof fn law_at_most_five_operations(writer: Writer, path: Seq<char>, answers: Answers)
    ensures
        course(writer, crate::entry::first_step(path), answers).requests.len() <= 5,
{
    law_entry_course(writer, path, answers);
}

/// A write carries the time of last modification that the source told if and only
/// if the entry is new or times and sizes were compared, and the destination is a
/// bucket or a directory whose times are to be restored.
pub proof fn law_written_mtime(writer: Writer, path: Seq<char>, answers: Answers, i: int)
    requires
        0 <= i < course(writer, crate::entry::first_step(path), answers).requests.len(),
    ensures
        course(
            writer,
            crate::entry::first_step(path),
            answers,
        ).requests[i].request matches Request::Write(kind) ==> kind == (match answers.source_stat {
            Ok((Some(mtime), _)) if (!answers.dest_exists() || answers.compared() is Some) && (
            !writer.is_fs || writer.set_fs_mtime) => WriteKind::WithMtime(mtime),
            _ => WriteKind::Plain,
        }),
{
    law_entry_course(writer, path, answers);
}

/// Once an entry was copied with its time of last modification, and the
/// destination tells that time and the size that the source tells, synchronising
/// it again leaves it as it is, unless the checksums differ.
pub proof fn law_second_sync_leaves_entry(
    writer: Writer,
    path: Seq<char>,
    first: Answers,
    second: Answers,
    mtime: Mtime,
    size: Size,
)
    requires
        copies(course(writer, crate::entry::first_step(path), first), first),
        course(writer, crate::entry::first_step(path), first).requests.last().request
            == Request::Write(WriteKind::WithMtime(mtime)),
        first.source_stat matches Ok((_, Some(s))) && s == size,
        second.source_stat == first.source_stat,
        second.dest_stat == Ok::<SizeAndMt, RSyncError>((Some(mtime), Some(size))),
        second.comparison_succeeds(),
        second.both_crc32c() ==> second.same_crc32c(),
    ensures
        !copies(course(writer, crate::entry::first_step(path), second), second),
        course(writer, crate::entry::first_step(path), second).result == Ok::<
            RSyncStatusView,
            RSyncError,
        >(RSyncStatusView::AlreadySynced { reason: "same mtime and size"@, path }),
{
    let c = course(writer, crate::entry::first_step(path), first);
    law_failure_ends_the_course(writer, path, first);
    law_written_mtime(writer, path, first, c.requests.len() - 1);
    law_left_as_it_is_iff_same(writer, path, second);
    law_reported_as_copied_iff_copied(writer, path, second);
}

/// An entry that the filters do not select is ignored: nothing is asked for. One
/// that they select takes the course that it takes without filters.
pub proof fn law_filters(writer: Writer, path: Seq<char>, selected: bool, answers: Answers)
    ensures
        course(writer, crate::entry::filtered_step(path, selected), answers) == (if selected {
            course(writer, crate::entry::first_step(path), answers)
        } else {
            Course {
                requests: Seq::empty(),
                result: Ok(
                    RSyncStatusView::Ignored { reason: "Excluded by regex filter"@, path },
                ),
            }
        }),
{
}

/// Without filters every name is selected. A name that the second filter matches
/// never is, whatever the first filter says, and one that the first filter does
/// not match never is either.
pub proof fn law_selection<T>(rsync: RSync<T>, name: Seq<char>)
    ensures
        rsync.included is None && rsync.excluded is None ==> rsync.selects(name),
        rsync.excluded matches Some(f) && f@.contains(name) ==> !rsync.selects(name),
        rsync.included matches Some(f) && !f@.contains(name) ==> !rsync.selects(name),
{
}

/// A name denotes itself.
pub proof fn law_name_denotes_itself(text: Seq<char>)
    ensures
        crate::path::is_name(text) ==> crate::path::without_leading_slashes(text) == text,
{
}

/// Slashes before a text do not change what it denotes.
pub proof fn law_leading_slash_is_ignored(text: Seq<char>)
    ensures
        crate::path::without_leading_slashes(seq!['/'] + text)
            == crate::path::without_leading_slashes(text),
{
    assert((seq!['/'] + text).skip(1) =~= text);
}

/// What a text denotes is empty or a name, and is the end of the text, after
/// slashes only.
pub proof fn law_denoted_text(text: Seq<char>)
    ensures
        ({
            let name = crate::path::without_leading_slashes(text);
            &&& name.len() == 0 || crate::path::is_name(name)
            &&& name.len() > 0 ==> name[0] != '/'
            &&& name.len() <= text.len()
            &&& name == text.skip(text.len() - name.len())
            &&& forall|i: int| 0 <= i < text.len() - name.len() ==> (#[trigger] text[i]) == '/'
        }),
    decreases text.len(),
{
    let name = crate::path::without_leading_slashes(text);
    if text.len() > 0 && text[0] == '/' {
        law_denoted_text(text.skip(1));
        assert(text.skip(1).skip(text.skip(1).len() - name.len()) =~= text.skip(
            text.len() - name.len(),
        ));
        assert forall|i: int| 0 <= i < text.len() - name.len() implies (#[trigger] text[i])
            == '/' by {
            if i > 0 {
                assert(text.skip(1)[i - 1] == text[i]);
            }
        }
    } else {
        assert(text.skip(0) =~= text);
    }
}

/// What a text denotes does not depend on how many slashes it starts with, and two
/// texts without leading slashes denote the same only if they are the same.
pub proof fn law_different_names_stay_different(text: Seq<char>, other: Seq<char>)
    requires
        text.len() == 0 || text[0] != '/',
        other.len() == 0 || other[0] != '/',
    ensures
        crate::path::without_leading_slashes(text) == crate::path::without_leading_slashes(other)
            <==> text == other,
{
}

/// Two names are equal if and only if their texts are, and two checksums if and only
/// if they are the same number for the same name.
pub proof fn law_equality(
    one: RelativePath,
    other: RelativePath,
    checksum: Entry,
    other_checksum: Entry,
)
    ensures
        vstd::std_specs::cmp::PartialEqSpec::eq_spec(&one, &other) <==> one@ == other@,
        vstd::std_specs::cmp::PartialEqSpec::eq_spec(&checksum, &other_checksum)
            <==> checksum.path@ == other_checksum.path@ && checksum.crc32c
            == other_checksum.crc32c,
{
}

/// An entry is written with the time that is known of it if and only if the
/// destination is a bucket or is asked to keep times; else without one.
pub proof fn law_kind_of_write(is_fs: bool, mtime: Option<Mtime>, set_fs_mtime: bool)
    ensures
        crate::storage::write_kind(is_fs, mtime, set_fs_mtime) is WithMtime <==> mtime is Some && (
        !is_fs || set_fs_mtime),
        crate::storage::write_kind(is_fs, mtime, set_fs_mtime) matches WriteKind::WithMtime(m)
            ==> mtime == Some(m),
{
}

/// A filter that is missing says nothing of a name, and a name of which no filter
/// says anything is selected. Turning the answer of the first filter to no, or that of
/// the second to yes, always leaves the name out.
pub proof fn law_what_filters_say(
    filter: Option<crate::filter::RSyncFilter>,
    name: Seq<char>,
    said: Option<bool>,
)
    ensures
        crate::filter::matched_by(filter, name) is None <==> filter is None,
        filter matches Some(f) ==> crate::filter::matched_by(filter, name) == Some(
            f@.contains(name),
        ),
        crate::filter::selected_by(None, None),
        crate::filter::selected_by(Some(true), None),
        crate::filter::selected_by(None, Some(false)),
        crate::filter::selected_by(Some(true), Some(false)),
        !crate::filter::selected_by(Some(false), said),
        !crate::filter::selected_by(said, Some(true)),
{
}

/// A reply answers a request if and only if it is of the kind that was asked for.
pub proof fn law_replies_answer_by_kind(reply: Reply, kind: WriteKind)
    ensures
        crate::entry::answers(reply@, Request::DestSizeAndMt) <==> reply is SizeAndMt,
        crate::entry::answers(reply@, Request::SourceSizeAndMt) <==> reply is SizeAndMt,
        crate::entry::answers(reply@, Request::DestCrc32c) <==> reply is Crc32c,
        crate::entry::answers(reply@, Request::SourceCrc32c) <==> reply is Crc32c,
        crate::entry::answers(reply@, Request::Write(kind)) <==> reply is Written,
{
}

/// What an error prints as: the name of its kind and, in brackets, what it holds. Of
/// an error of the file system, only what the system's own cause prints as is open.
pub proof fn law_error_text(error: RSyncError, text: Seq<char>)
    ensures
        crate::error::is_error_text(error, text) <==> match error {
            RSyncError::MissingFieldsInGcsResponse(fields) => text
                == "MissingFieldsInGcsResponse("@ + crate::text::str_debug(fields@) + ")"@,
            RSyncError::StorageError(e) => text == "StorageError("@ + e.text@ + ")"@,
            RSyncError::FsIoError { path, message, .. } => {
                let start = "FsIoError { path: "@ + crate::text::path_debug(
                    crate::error::path_buf_bytes(path),
                ) + ", message: "@ + crate::text::str_debug(message@) + ", error: "@;
                let end = " }"@;
                &&& text.len() >= start.len() + end.len()
                &&& text.take(start.len() as int) == start
                &&& text.skip(text.len() - end.len()) == end
            },
            RSyncError::EmptyRelativePathError => text == "EmptyRelativePathError"@,
            RSyncError::InvalidRegexError => text == "InvalidRegexError"@,
        },
{
    if let RSyncError::FsIoError { path, message, .. } = error {
        let p = crate::text::path_debug(crate::error::path_buf_bytes(path));
        let m = crate::text::str_debug(message@);
        let start = "FsIoError { path: "@ + p + ", message: "@ + m + ", error: "@;
        let end = " }"@;
        if crate::error::is_error_text(error, text) {
            let cause = choose|cause: Seq<char>| text == #[trigger] crate::error::fs_io_text(
                p,
                m,
                cause,
            );
            assert(text == start + cause + end);
            assert(text.take(start.len() as int) =~= start);
            assert(text.skip(text.len() - end.len()) =~= end);
        }
        if text.len() >= start.len() + end.len() && text.take(start.len() as int) == start
            && text.skip(text.len() - end.len()) == end {
            let cause = text.subrange(start.len() as int, text.len() - end.len());
            assert(text =~= text.take(start.len() as int) + cause + text.skip(
                text.len() - end.len(),
            ));
            assert(text == crate::error::fs_io_text(p, m, cause));
        }
    }
}

} // verus!
