//! The synchronisation of two storages.

use crate::entry::Compared;
use crate::entry::EntryStep;
use crate::entry::EntryTask;
use crate::entry::Reply;
use crate::entry::TaskState;
use crate::entry::Writer;
use crate::error::RSyncError;
use crate::error::RSyncResult;
use crate::filter::is_selected;
use crate::filter::match_with;
use crate::filter::RSyncFilter;
use crate::path::RelativePath;
use crate::status::RSyncStatus;
use crate::storage::Entry;
use crate::storage::Mtime;
use crate::storage::ReaderWriter;
use crate::storage::ReaderWriterInternal;
use crate::storage::WriteKind;
use vstd::prelude::*;

verus! {

/// A source, a destination, and what decides which entries are copied and how.
#[derive(Debug)]
pub struct RSync<T> {
    pub source: ReaderWriterInternal<T>,
    pub dest: ReaderWriterInternal<T>,
    pub restore_fs_mtime: bool,
    pub included: Option<RSyncFilter>,
    pub excluded: Option<RSyncFilter>,
}

impl<T> RSync<T> {
    /// How the destination writes entries.
    pub open spec fn writer(self) -> Writer {
        Writer { is_fs: self.dest is Fs, set_fs_mtime: self.restore_fs_mtime }
    }

    /// Whether the filters select a name.
    pub open spec fn selects(self, name: Seq<char>) -> bool {
        crate::filter::selected_by(
            crate::filter::matched_by(self.included, name),
            crate::filter::matched_by(self.excluded, name),
        )
    }

    /// A synchronisation without filters, which leaves the times of last
    /// modification of a directory alone.
    pub fn new(source: ReaderWriter<T>, dest: ReaderWriter<T>) -> (res: Self)
        ensures
            res == (RSync {
                source: source.inner,
                dest: dest.inner,
                restore_fs_mtime: false,
                included: None,
                excluded: None,
            }),
    {
        RSync {
            source: source.inner,
            dest: dest.inner,
            restore_fs_mtime: false,
            included: None,
            excluded: None,
        }
    }

    /// Sets whether a directory gets the times of last modification.
    pub fn with_restore_fs_mtime(self, restore_fs_mtime: bool) -> (res: Self)
        ensures
            res == (RSync { restore_fs_mtime, ..self }),
    {
        RSync { restore_fs_mtime, ..self }
    }

    /// Sets the filters: the names to look at, and those of them to leave out.
    pub fn with_filters(
        self,
        included: Option<RSyncFilter>,
        excluded: Option<RSyncFilter>,
    ) -> (res: Self)
        ensures
            res == (RSync { included, excluded, ..self }),
    {
        RSync { included, excluded, ..self }
    }

    /// Whether the filters select a name.
    pub fn is_match(&self, path: &RelativePath) -> (res: bool)
        ensures
            res == self.selects(path@),
            res <==> (self.included matches Some(f) ==> f@.contains(path@)) && (
            self.excluded matches Some(f) ==> !f@.contains(path@)),
    {
        is_selected(match_with(&self.included, path), match_with(&self.excluded, path))
    }

    /// Synchronises an entry that the source lists, by comparing crc32c if the
    /// destination has the entry already. Times and sizes are asked for too, but
    /// decide only where an end has no checksum.
    pub fn sync(&self, listed: RSyncResult<RelativePath>) -> (res: RSyncResult<EntryStep>)
        ensures
            match listed {
                Ok(path) => res matches Ok(step) && step@ == crate::entry::first_step(path@),
                Err(e) => res == Err::<EntryStep, _>(e),
            },
            listed matches Ok(path) ==> res == Ok::<EntryStep, RSyncError>(
                EntryStep::Pending(EntryTask { path, state: TaskState::DestStat }),
            ),
    {
        match listed {
            Ok(path) => Ok(self.sync_entry(path)),
            Err(e) => Err(e),
        }
    }

    /// Synchronises an entry that the source lists, where the filters select it.
    pub fn sync_filtered(&self, listed: RSyncResult<RelativePath>) -> (res: RSyncResult<EntryStep>)
        ensures
            match listed {
                Ok(path) => res matches Ok(step) && step@ == crate::entry::filtered_step(
                    path@,
                    self.selects(path@),
                ),
                Err(e) => res == Err::<EntryStep, _>(e),
            },
            listed matches Ok(path) ==> if (self.included matches Some(f) ==> f@.contains(path@))
                && (self.excluded matches Some(f) ==> !f@.contains(path@)) {
                res == Ok::<EntryStep, RSyncError>(
                    EntryStep::Pending(EntryTask { path, state: TaskState::DestStat }),
                )
            } else {
                &&& res matches Ok(EntryStep::Done(Ok(RSyncStatus::Ignored { reason, path: p })))
                &&& reason@ == "Excluded by regex filter"@
                &&& p == path
            },
    {
        match listed {
            Ok(path) => {
                let selected = self.is_match(&path);
                Ok(self.sync_selected(path, selected))
            },
            Err(e) => Err(e),
        }
    }

    /// Starts to synchronise an entry that the filters select or not.
    pub fn sync_selected(&self, path: RelativePath, selected: bool) -> (res: EntryStep)
        ensures
            res@ == crate::entry::filtered_step(path@, selected),
            selected ==> res == EntryStep::Pending(
                EntryTask { path, state: TaskState::DestStat },
            ),
            !selected ==> {
                &&& res matches EntryStep::Done(Ok(RSyncStatus::Ignored { reason, path: p }))
                &&& reason@ == "Excluded by regex filter"@
                &&& p == path
            },
    {
        if selected {
            self.sync_entry(path)
        } else {
            EntryStep::Done(Ok(RSyncStatus::ignored("Excluded by regex filter", &path)))
        }
    }

    /// Starts to synchronise the entry named `path`.
    pub fn sync_entry(&self, path: RelativePath) -> (res: EntryStep)
        ensures
            res@ == crate::entry::first_step(path@),
            res == EntryStep::Pending(EntryTask { path, state: TaskState::DestStat }),
    {
        EntryStep::Pending(EntryTask { path, state: TaskState::DestStat })
    }

    /// Starts to compare the checksums of the entry named `path`.
    pub fn sync_entry_crc32c(&self, path: RelativePath, compared: Option<Compared>) -> (res:
        EntryStep)
        ensures
            res@ == crate::entry::crc32c_step(path@, compared),
            res == EntryStep::Pending(EntryTask { path, state: TaskState::DestCrc { compared } }),
    {
        EntryStep::Pending(EntryTask { path, state: TaskState::DestCrc { compared } })
    }

    /// Settles what becomes of the entry named `path`, once the checksums are
    /// known. Where both ends have one, the checksums overrule times and sizes.
    pub fn settle_entry(
        &self,
        path: RelativePath,
        compared: Option<Compared>,
        dest: Option<Entry>,
        source: Option<Entry>,
    ) -> (res: EntryStep)
        ensures
            res@ == crate::entry::settled_step(
                self.writer(),
                path@,
                compared,
                crate::storage::entry_view(dest),
                crate::storage::entry_view(source),
            ),
            ({
                let same_stat = compared matches Some(c) && c.same;
                let other_stat = compared matches Some(c) && !c.same;
                let left = match (dest, source) {
                    (Some(d), Some(s)) => d.path@ == s.path@ && d.crc32c == s.crc32c,
                    _ => same_stat,
                };
                &&& left ==> {
                    &&& res matches EntryStep::Done(
                        Ok(RSyncStatus::AlreadySynced { reason, path: p }),
                    )
                    &&& p == path
                    &&& same_stat ==> reason@ == "same mtime and size"@
                    &&& !same_stat ==> reason@ == "same crc32c"@
                }
                &&& !left ==> {
                    &&& res matches EntryStep::Pending(
                        EntryTask {
                            path: task_path,
                            state: TaskState::Writing {
                                kind,
                                status: RSyncStatus::Updated { reason, path: p },
                            },
                        },
                    )
                    &&& task_path == path
                    &&& p == path
                    &&& other_stat ==> reason@ == "different size or mtime"@
                    &&& !other_stat && dest is None ==> reason@ == "no dest crc32c"@
                    &&& !other_stat && dest is Some ==> reason@ == "different crc32c"@
                    &&& kind == (match compared {
                        Some(c) if self.dest is Gcs || self.restore_fs_mtime => WriteKind::WithMtime(
                            c.mtime,
                        ),
                        _ => WriteKind::Plain,
                    })
                }
            }),
    {
        let no_dest_crc32c = dest.is_none();
        let same_crc32c = match (dest, source) {
            (Some(dest), Some(source)) => Some(dest == source),
            _ => None,
        };
        match (compared, same_crc32c) {
            (Some(c), Some(false)) if c.same => {
                let status = RSyncStatus::updated("different crc32c", &path);
                self.write_entry(Some(c.mtime), path, status)
            },
            (Some(c), Some(true)) if !c.same => EntryStep::Done(
                Ok(RSyncStatus::already_synced("same crc32c", &path)),
            ),
            (Some(c), _) => {
                if c.same {
                    EntryStep::Done(Ok(RSyncStatus::already_synced("same mtime and size", &path)))
                } else {
                    let status = RSyncStatus::updated("different size or mtime", &path);
                    self.write_entry(Some(c.mtime), path, status)
                }
            },
            (None, Some(true)) => EntryStep::Done(
                Ok(RSyncStatus::already_synced("same crc32c", &path)),
            ),
            (None, _) => {
                let status = if no_dest_crc32c {
                    RSyncStatus::updated("no dest crc32c", &path)
                } else {
                    RSyncStatus::updated("different crc32c", &path)
                };
                self.write_entry(None, path, status)
            },
        }
    }

    /// Starts to copy the entry named `path`; `status` is what that comes to.
    pub fn write_entry(
        &self,
        mtime: Option<Mtime>,
        path: RelativePath,
        status: RSyncStatus,
    ) -> (res: EntryStep)
        ensures
            res@ == crate::entry::write_step(self.writer(), path@, mtime, status@),
            ({
                &&& res matches EntryStep::Pending(
                    EntryTask { path: p, state: TaskState::Writing { kind, status: s } },
                )
                &&& p == path
                &&& s == status
                &&& kind == (match mtime {
                    Some(mt) if self.dest is Gcs || self.restore_fs_mtime => WriteKind::WithMtime(
                        mt,
                    ),
                    _ => WriteKind::Plain,
                })
            }),
    {
        let kind = self.dest.write(mtime, self.restore_fs_mtime);
        EntryStep::Pending(EntryTask { path, state: TaskState::Writing { kind, status } })
    }

    /// Takes the reply to the operation that `task` waits for. Another reply
    /// leaves it waiting.
    pub fn resume_entry(&self, task: EntryTask, reply: Reply) -> (res: EntryStep)
        ensures
            res@ == crate::entry::next_step(self.writer(), task@, reply@),
            // A task stays with its entry.
            res matches EntryStep::Pending(t) ==> t.path == task.path,
            // A reply to another operation changes nothing.
            (match task.state {
                TaskState::DestStat => !(reply is SizeAndMt),
                TaskState::SourceStat { .. } => !(reply is SizeAndMt),
                TaskState::NewSourceStat => !(reply is SizeAndMt),
                TaskState::DestCrc { .. } => !(reply is Crc32c),
                TaskState::SourceCrc { .. } => !(reply is Crc32c),
                TaskState::Writing { .. } => !(reply is Written),
            }) ==> res == EntryStep::Pending(task),
            // An operation that fails ends the task with its error.
            match (task.state, reply) {
                (TaskState::DestStat, Reply::SizeAndMt(Err(e))) => res == EntryStep::Done(Err(e)),
                (TaskState::SourceStat { .. }, Reply::SizeAndMt(Err(e))) => res == EntryStep::Done(
                    Err(e),
                ),
                (TaskState::NewSourceStat, Reply::SizeAndMt(Err(e))) => res == EntryStep::Done(
                    Err(e),
                ),
                (TaskState::DestCrc { .. }, Reply::Crc32c(Err(e))) => res == EntryStep::Done(
                    Err(e),
                ),
                (TaskState::SourceCrc { .. }, Reply::Crc32c(Err(e))) => res == EntryStep::Done(
                    Err(e),
                ),
                (TaskState::Writing { .. }, Reply::Written(Err(e))) => res == EntryStep::Done(
                    Err(e),
                ),
                _ => true,
            },
            // What the destination tells of time and size decides what comes next.
            task.state is DestStat ==> (reply matches Reply::SizeAndMt(Ok((mtime, size))) ==> {
                &&& res matches EntryStep::Pending(t)
                &&& t.state == (match (mtime, size) {
                    (Some(mtime), Some(size)) => TaskState::SourceStat { mtime, size },
                    (None, None) => TaskState::NewSourceStat,
                    _ => TaskState::DestCrc { compared: None },
                })
            }),
            // Times and sizes are compared where both ends know both.
            match (task.state, reply) {
                (
                    TaskState::SourceStat { mtime, size },
                    Reply::SizeAndMt(Ok((Some(m), Some(s)))),
                ) => {
                    &&& res matches EntryStep::Pending(t)
                    &&& t.state matches TaskState::DestCrc { compared: Some(c) }
                    &&& c.mtime == m
                    &&& c.same <==> mtime.secs == m.secs && size == s
                },
                (TaskState::SourceStat { .. }, Reply::SizeAndMt(Ok(_))) => {
                    &&& res matches EntryStep::Pending(t)
                    &&& t.state == (TaskState::DestCrc { compared: None })
                },
                _ => true,
            },
            // An entry that the destination lacks is written, with the time that the
            // source tells, where the destination takes one.
            task.state is NewSourceStat ==> (reply matches Reply::SizeAndMt(Ok((mtime, _))) ==> {
                &&& res matches EntryStep::Pending(t)
                &&& t.state matches TaskState::Writing { kind, status }
                &&& status == RSyncStatus::Created(task.path)
                &&& kind == (match mtime {
                    Some(mt) if self.dest is Gcs || self.restore_fs_mtime => WriteKind::WithMtime(
                        mt,
                    ),
                    _ => WriteKind::Plain,
                })
            }),
            // The source is asked for a checksum where the destination has one.
            match (task.state, reply) {
                (TaskState::DestCrc { compared }, Reply::Crc32c(Ok(Some(dest)))) => {
                    &&& res matches EntryStep::Pending(t)
                    &&& t.state == (TaskState::SourceCrc { compared, dest })
                },
                _ => true,
            },
            // Once the checksums are known, they decide where both ends have one,
            // else times and sizes do.
            match (task.state, reply) {
                (TaskState::DestCrc { compared }, Reply::Crc32c(Ok(None))) => {
                    &&& (compared matches Some(c) && c.same) <==> (res matches EntryStep::Done(
                        Ok(RSyncStatus::AlreadySynced { .. }),
                    ))
                    &&& !(compared matches Some(c) && c.same) ==> {
                        &&& res matches EntryStep::Pending(t)
                        &&& t.state matches TaskState::Writing { kind, status }
                        &&& status is Updated
                        &&& kind == (match compared {
                            Some(c) if self.dest is Gcs
                                || self.restore_fs_mtime => WriteKind::WithMtime(c.mtime),
                            _ => WriteKind::Plain,
                        })
                    }
                },
                (TaskState::SourceCrc { compared, dest }, Reply::Crc32c(Ok(source))) => {
                    let left = match source {
                        Some(s) => dest.path@ == s.path@ && dest.crc32c == s.crc32c,
                        None => compared matches Some(c) && c.same,
                    };
                    &&& left <==> (res matches EntryStep::Done(
                        Ok(RSyncStatus::AlreadySynced { .. }),
                    ))
                    &&& !left ==> {
                        &&& res matches EntryStep::Pending(t)
                        &&& t.state matches TaskState::Writing { kind, status }
                        &&& status is Updated
                        &&& kind == (match compared {
                            Some(c) if self.dest is Gcs
                                || self.restore_fs_mtime => WriteKind::WithMtime(c.mtime),
                            _ => WriteKind::Plain,
                        })
                    }
                },
                _ => true,
            },
            // The reason is about times and sizes wherever those were compared and the
            // checksums do not overrule them.
            match (task.state, reply, res) {
                (
                    TaskState::DestCrc { .. },
                    Reply::Crc32c(_),
                    EntryStep::Done(Ok(RSyncStatus::AlreadySynced { reason, .. })),
                ) => reason@ == "same mtime and size"@,
                (
                    TaskState::SourceCrc { compared, .. },
                    Reply::Crc32c(_),
                    EntryStep::Done(Ok(RSyncStatus::AlreadySynced { reason, .. })),
                ) => reason@ == (if compared matches Some(c) && c.same {
                    "same mtime and size"@
                } else {
                    "same crc32c"@
                }),
                (
                    TaskState::DestCrc { compared },
                    Reply::Crc32c(Ok(None)),
                    EntryStep::Pending(
                        EntryTask {
                            state: TaskState::Writing {
                                status: RSyncStatus::Updated { reason, .. },
                                ..
                            },
                            ..
                        },
                    ),
                ) => reason@ == (if compared is Some {
                    "different size or mtime"@
                } else {
                    "no dest crc32c"@
                }),
                (
                    TaskState::SourceCrc { compared, .. },
                    Reply::Crc32c(_),
                    EntryStep::Pending(
                        EntryTask {
                            state: TaskState::Writing {
                                status: RSyncStatus::Updated { reason, .. },
                                ..
                            },
                            ..
                        },
                    ),
                ) => reason@ == (if compared matches Some(c) && !c.same {
                    "different size or mtime"@
                } else {
                    "different crc32c"@
                }),
                _ => true,
            },
            // A write that does not fail comes to what the task says.
            match (task.state, reply) {
                (TaskState::Writing { status, .. }, Reply::Written(Ok(()))) => res
                    == EntryStep::Done(Ok(status)),
                _ => true,
            },
            // Every report names the entry.
            match (task.state, res) {
                (TaskState::Writing { .. }, _) => true,
                (_, EntryStep::Done(Ok(RSyncStatus::AlreadySynced { path, .. }))) => path
                    == task.path,
                (_, EntryStep::Pending(t)) => t.state matches TaskState::Writing {
                    status: RSyncStatus::Updated { path, .. },
                    ..
                } ==> path == task.path,
                _ => true,
            },
    {
        if !reply.answers(task.request()) {
            return EntryStep::Pending(task);
        }
        let EntryTask { path, state } = task;
        match (state, reply) {
            (_, Reply::SizeAndMt(Err(e))) => EntryStep::Done(Err(e)),
            (_, Reply::Crc32c(Err(e))) => EntryStep::Done(Err(e)),
            (_, Reply::Written(Err(e))) => EntryStep::Done(Err(e)),
            (TaskState::DestStat, Reply::SizeAndMt(Ok((mtime, size)))) => match (mtime, size) {
                (Some(mtime), Some(size)) => EntryStep::Pending(
                    EntryTask { path, state: TaskState::SourceStat { mtime, size } },
                ),
                (None, None) => EntryStep::Pending(
                    EntryTask { path, state: TaskState::NewSourceStat },
                ),
                _ => self.sync_entry_crc32c(path, None),
            },
            (
                TaskState::SourceStat { mtime, size },
                Reply::SizeAndMt(Ok((source_mtime, source_size))),
            ) => match (source_mtime, source_size) {
                (Some(source_mtime), Some(source_size)) => {
                    let same = mtime.timestamp() == source_mtime.timestamp() && size == source_size;
                    self.sync_entry_crc32c(path, Some(Compared { same, mtime: source_mtime }))
                },
                _ => self.sync_entry_crc32c(path, None),
            },
            (TaskState::NewSourceStat, Reply::SizeAndMt(Ok((mtime, _)))) => {
                let status = RSyncStatus::Created(path.clone());
                self.write_entry(mtime, path, status)
            },
            (TaskState::DestCrc { compared }, Reply::Crc32c(Ok(None))) => self.settle_entry(
                path,
                compared,
                None,
                None,
            ),
            (TaskState::DestCrc { compared }, Reply::Crc32c(Ok(Some(dest)))) => EntryStep::Pending(
                EntryTask { path, state: TaskState::SourceCrc { compared, dest } },
            ),
            (TaskState::SourceCrc { compared, dest }, Reply::Crc32c(Ok(source))) => {
                self.settle_entry(path, compared, Some(dest), source)
            },
            (TaskState::Writing { status, .. }, Reply::Written(Ok(()))) => EntryStep::Done(
                Ok(status),
            ),
            (state, _) => EntryStep::Pending(EntryTask { path, state }),
        }
    }
}

} // verus!
