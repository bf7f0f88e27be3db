//! The course of synchronising one entry.
//!
//! Synchronising an entry takes operations on the two storages. A task asks for
//! one operation at a time; the reply to it leads to the next task or to the end.

use crate::error::RSyncError;
use crate::error::RSyncResult;
use crate::path::RelativePath;
use crate::status::RSyncStatus;
use crate::status::RSyncStatusView;
use crate::storage::Entry;
use crate::storage::EntryView;
use crate::storage::Mtime;
use crate::storage::Size;
use crate::storage::SizeAndMt;
use crate::storage::WriteKind;
use vstd::prelude::*;

verus! {

/// An operation on the entry of a task.
#[derive(Debug, Clone, Copy, PartialEq, Eq, Structural)]
pub enum Request {
    /// Ask the destination for the size and the time of last modification.
    DestSizeAndMt,
    /// Ask the source for the size and the time of last modification.
    SourceSizeAndMt,
    /// Ask the destination for the checksum.
    DestCrc32c,
    /// Ask the source for the checksum.
    SourceCrc32c,
    /// Read the entry at the source and write it at the destination.
    Write(WriteKind),
}

/// What an operation came to.
#[derive(Debug)]
pub enum Reply {
    SizeAndMt(RSyncResult<SizeAndMt>),
    Crc32c(RSyncResult<Option<Entry>>),
    Written(RSyncResult<()>),
}

/// The values that a [`Reply`] holds.
pub enum ReplyView {
    SizeAndMt(Result<SizeAndMt, RSyncError>),
    Crc32c(Result<Option<EntryView>, RSyncError>),
    Written(Result<(), RSyncError>),
}

impl View for Reply {
    type V = ReplyView;

    open spec fn view(&self) -> ReplyView {
        match *self {
            Reply::SizeAndMt(r) => ReplyView::SizeAndMt(r),
            Reply::Crc32c(r) => ReplyView::Crc32c(
                match r {
                    Ok(Some(entry)) => Ok(Some(entry@)),
                    Ok(None) => Ok(None),
                    Err(e) => Err(e),
                },
            ),
            Reply::Written(r) => ReplyView::Written(r),
        }
    }
}

/// Whether a reply is one to this request.
pub open spec fn answers(reply: ReplyView, request: Request) -> bool {
    match request {
        Request::DestSizeAndMt | Request::SourceSizeAndMt => reply is SizeAndMt,
        Request::DestCrc32c | Request::SourceCrc32c => reply is Crc32c,
        Request::Write(_) => reply is Written,
    }
}

impl Reply {
    /// Whether this is a reply to `request`.
    pub fn answers(&self, request: Request) -> (res: bool)
        ensures
            res == answers(self@, request),
            res == (match request {
                Request::DestSizeAndMt => self is SizeAndMt,
                Request::SourceSizeAndMt => self is SizeAndMt,
                Request::DestCrc32c => self is Crc32c,
                Request::SourceCrc32c => self is Crc32c,
                Request::Write(_) => self is Written,
            }),
    {
        match (self, request) {
            (Reply::SizeAndMt(_), Request::DestSizeAndMt) => true,
            (Reply::SizeAndMt(_), Request::SourceSizeAndMt) => true,
            (Reply::Crc32c(_), Request::DestCrc32c) => true,
            (Reply::Crc32c(_), Request::SourceCrc32c) => true,
            (Reply::Written(_), Request::Write(_)) => true,
            _ => false,
        }
    }
}

/// What comparing times and sizes told, where both ends know both: whether seconds
/// and size are the same, and the time at the source.
#[derive(Debug, Clone, Copy, PartialEq, Eq, Structural)]
pub struct Compared {
    pub same: bool,
    pub mtime: Mtime,
}

/// How far a task has come: the operation it waits for, and what it knows.
#[derive(Debug)]
pub enum TaskState {
    /// Nothing is known yet.
    DestStat,
    /// The destination has the entry, with this time and this size.
    SourceStat { mtime: Mtime, size: Size },
    /// The destination does not have the entry.
    NewSourceStat,
    /// The destination has the entry; times and sizes were compared where they
    /// can be.
    DestCrc { compared: Option<Compared> },
    /// The destination has the entry, with this checksum.
    SourceCrc { compared: Option<Compared>, dest: Entry },
    /// The entry has to be written; `status` is what that comes to.
    Writing { kind: WriteKind, status: RSyncStatus },
}

/// The synchronising of one entry, waiting for an operation.
#[derive(Debug)]
pub struct EntryTask {
    pub path: RelativePath,
    pub state: TaskState,
}

/// The values that a [`TaskState`] holds.
pub enum TaskStateView {
    DestStat,
    SourceStat { mtime: Mtime, size: Size },
    NewSourceStat,
    DestCrc { compared: Option<Compared> },
    SourceCrc { compared: Option<Compared>, dest: EntryView },
    Writing { kind: WriteKind, status: RSyncStatusView },
}

/// The values that an [`EntryTask`] holds.
pub struct EntryTaskView {
    pub path: Seq<char>,
    pub state: TaskStateView,
}

impl View for TaskState {
    type V = TaskStateView;

    open spec fn view(&self) -> TaskStateView {
        match *self {
            TaskState::DestStat => TaskStateView::DestStat,
            TaskState::SourceStat { mtime, size } => TaskStateView::SourceStat { mtime, size },
            TaskState::NewSourceStat => TaskStateView::NewSourceStat,
            TaskState::DestCrc { compared } => TaskStateView::DestCrc { compared },
            TaskState::SourceCrc { compared, dest } => TaskStateView::SourceCrc {
                compared,
                dest: dest@,
            },
            TaskState::Writing { kind, status } => TaskStateView::Writing { kind, status: status@ },
        }
    }
}

impl View for EntryTask {
    type V = EntryTaskView;

    open spec fn view(&self) -> EntryTaskView {
        EntryTaskView { path: self.path@, state: self.state@ }
    }
}

impl EntryTaskView {
    /// The operation that the task waits for.
    pub open spec fn request(self) -> Request {
        match self.state {
            TaskStateView::DestStat => Request::DestSizeAndMt,
            TaskStateView::SourceStat { .. } => Request::SourceSizeAndMt,
            TaskStateView::NewSourceStat => Request::SourceSizeAndMt,
            TaskStateView::DestCrc { .. } => Request::DestCrc32c,
            TaskStateView::SourceCrc { .. } => Request::SourceCrc32c,
            TaskStateView::Writing { kind, .. } => Request::Write(kind),
        }
    }
}

impl EntryTask {
    /// The operation that the task waits for.
    pub fn request(&self) -> (res: Request)
        ensures
            res == self@.request(),
            res == (match self.state {
                TaskState::DestStat => Request::DestSizeAndMt,
                TaskState::SourceStat { .. } => Request::SourceSizeAndMt,
                TaskState::NewSourceStat => Request::SourceSizeAndMt,
                TaskState::DestCrc { .. } => Request::DestCrc32c,
                TaskState::SourceCrc { .. } => Request::SourceCrc32c,
                TaskState::Writing { kind, .. } => Request::Write(kind),
            }),
    {
        match &self.state {
            TaskState::DestStat => Request::DestSizeAndMt,
            TaskState::SourceStat { .. } => Request::SourceSizeAndMt,
            TaskState::NewSourceStat => Request::SourceSizeAndMt,
            TaskState::DestCrc { .. } => Request::DestCrc32c,
            TaskState::SourceCrc { .. } => Request::SourceCrc32c,
            TaskState::Writing { kind, .. } => Request::Write(*kind),
        }
    }
}

/// A task that waits for an operation, or the end of one.
#[derive(Debug)]
pub enum EntryStep {
    Pending(EntryTask),
    Done(RSyncResult<RSyncStatus>),
}

/// The values that an [`EntryStep`] holds.
pub enum EntryStepView {
    Pending(EntryTaskView),
    Done(Result<RSyncStatusView, RSyncError>),
}

impl View for EntryStep {
    type V = EntryStepView;

    open spec fn view(&self) -> EntryStepView {
        match *self {
            EntryStep::Pending(task) => EntryStepView::Pending(task@),
            EntryStep::Done(Ok(status)) => EntryStepView::Done(Ok(status@)),
            EntryStep::Done(Err(e)) => EntryStepView::Done(Err(e)),
        }
    }
}

/// How the destination of a synchronisation writes entries.
pub struct Writer {
    /// The destination is a directory.
    pub is_fs: bool,
    /// A directory gets the times of last modification.
    pub set_fs_mtime: bool,
}

impl Writer {
    /// How an entry with this time of last modification is written.
    pub open spec fn kind(self, mtime: Option<Mtime>) -> WriteKind {
        crate::storage::write_kind(self.is_fs, mtime, self.set_fs_mtime)
    }
}

/// The step that waits for the first operation on an entry.
pub open spec fn first_step(path: Seq<char>) -> EntryStepView {
    EntryStepView::Pending(EntryTaskView { path, state: TaskStateView::DestStat })
}

/// The step that compares checksums, from the start, after times and sizes were
/// compared where they can be.
pub open spec fn crc32c_step(path: Seq<char>, compared: Option<Compared>) -> EntryStepView {
    EntryStepView::Pending(EntryTaskView { path, state: TaskStateView::DestCrc { compared } })
}

/// The step that writes an entry; `status` is what that comes to.
pub open spec fn write_step(
    writer: Writer,
    path: Seq<char>,
    mtime: Option<Mtime>,
    status: RSyncStatusView,
) -> EntryStepView {
    EntryStepView::Pending(
        EntryTaskView {
            path,
            state: TaskStateView::Writing { kind: writer.kind(mtime), status },
        },
    )
}

/// The entry is left as it is, for this reason.
pub open spec fn synced_step(path: Seq<char>, reason: Seq<char>) -> EntryStepView {
    EntryStepView::Done(Ok(RSyncStatusView::AlreadySynced { reason, path }))
}

/// The step once the checksums are known, each where there is one.
///
/// Where both ends have a checksum, the checksums decide: they overrule what times
/// and sizes say. Times and sizes alone decide only where an end has no checksum.
/// The reason given is about times and sizes wherever those were compared and the
/// checksums do not overrule them.
pub open spec fn settled_step(
    writer: Writer,
    path: Seq<char>,
    compared: Option<Compared>,
    dest: Option<EntryView>,
    source: Option<EntryView>,
) -> EntryStepView {
    let same_crc32c = dest is Some && dest == source;
    let other_crc32c = dest is Some && source is Some && dest != source;
    match compared {
        Some(c) => if c.same && !other_crc32c {
            synced_step(path, "same mtime and size"@)
        } else if c.same {
            write_step(
                writer,
                path,
                Some(c.mtime),
                RSyncStatusView::Updated { reason: "different crc32c"@, path },
            )
        } else if same_crc32c {
            synced_step(path, "same crc32c"@)
        } else {
            write_step(
                writer,
                path,
                Some(c.mtime),
                RSyncStatusView::Updated { reason: "different size or mtime"@, path },
            )
        },
        None => if same_crc32c {
            synced_step(path, "same crc32c"@)
        } else {
            write_step(
                writer,
                path,
                None,
                RSyncStatusView::Updated {
                    reason: if dest is None {
                        "no dest crc32c"@
                    } else {
                        "different crc32c"@
                    },
                    path,
                },
            )
        },
    }
}

/// The step of an entry that the filters select or not.
pub open spec fn filtered_step(path: Seq<char>, selected: bool) -> EntryStepView {
    if selected {
        first_step(path)
    } else {
        EntryStepView::Done(
            Ok(RSyncStatusView::Ignored { reason: "Excluded by regex filter"@, path }),
        )
    }
}

/// The step after a reply. A reply to another operation than the one that the
/// task waits for leaves it waiting.
pub open spec fn next_step(
    writer: Writer,
    task: EntryTaskView,
    reply: ReplyView,
) -> EntryStepView {
    let path = task.path;
    match (task.state, reply) {
        _ if !answers(reply, task.request()) => EntryStepView::Pending(task),
        // An operation that fails ends the task with its error.
        (_, ReplyView::SizeAndMt(Err(e))) => EntryStepView::Done(Err(e)),
        (_, ReplyView::Crc32c(Err(e))) => EntryStepView::Done(Err(e)),
        (_, ReplyView::Written(Err(e))) => EntryStepView::Done(Err(e)),
        // The destination knows time and size: the source is asked for them, to
        // compare. It knows neither: the entry is new. Else there is nothing to
        // compare but checksums.
        (TaskStateView::DestStat, ReplyView::SizeAndMt(Ok((mtime, size)))) => match (mtime, size) {
            (Some(mtime), Some(size)) => EntryStepView::Pending(
                EntryTaskView { path, state: TaskStateView::SourceStat { mtime, size } },
            ),
            (None, None) => EntryStepView::Pending(
                EntryTaskView { path, state: TaskStateView::NewSourceStat },
            ),
            _ => crc32c_step(path, None),
        },
        (
            TaskStateView::SourceStat { mtime, size },
            ReplyView::SizeAndMt(Ok((source_mtime, source_size))),
        ) => match (source_mtime, source_size) {
            (Some(source_mtime), Some(source_size)) => crc32c_step(
                path,
                Some(
                    Compared {
                        same: mtime.secs == source_mtime.secs && size == source_size,
                        mtime: source_mtime,
                    },
                ),
            ),
            _ => crc32c_step(path, None),
        },
        (TaskStateView::NewSourceStat, ReplyView::SizeAndMt(Ok((mtime, _)))) => write_step(
            writer,
            path,
            mtime,
            RSyncStatusView::Created(path),
        ),
        (TaskStateView::DestCrc { compared }, ReplyView::Crc32c(Ok(None))) => settled_step(
            writer,
            path,
            compared,
            None,
            None,
        ),
        (
            TaskStateView::DestCrc { compared },
            ReplyView::Crc32c(Ok(Some(dest))),
        ) => EntryStepView::Pending(
            EntryTaskView { path, state: TaskStateView::SourceCrc { compared, dest } },
        ),
        (
            TaskStateView::SourceCrc { compared, dest },
            ReplyView::Crc32c(Ok(source)),
        ) => settled_step(writer, path, compared, Some(dest), source),
        (TaskStateView::Writing { status, .. }, ReplyView::Written(Ok(()))) => EntryStepView::Done(
            Ok(status),
        ),
        _ => EntryStepView::Pending(task),
    }
}

} // verus!
