//! Mirroring: the entries of the source are synchronised, and what only the
//! destination has is deleted.

use crate::entry::EntryStep;
use crate::entry::EntryStepView;
use crate::entry::EntryTask;
use crate::entry::TaskState;
use crate::error::RSyncError;
use crate::error::RSyncResult;
use crate::path::RelativePath;
use crate::rsync::RSync;
use crate::status::RMirrorStatus;
use crate::status::RMirrorStatusView;
use crate::status::RSyncStatus;
use vstd::prelude::*;

verus! {

/// An operation on an entry that the destination lists.
#[derive(Debug, Clone, Copy, PartialEq, Eq, Structural)]
pub enum ExtraRequest {
    /// Ask the source whether it has the entry.
    SourceExists,
    /// Delete the entry at the destination.
    DestDelete,
}

/// What an operation on an entry that the destination lists came to.
#[derive(Debug)]
pub enum ExtraReply {
    Exists(RSyncResult<bool>),
    Deleted(RSyncResult<()>),
}

/// The check of one entry that the destination lists, waiting for an operation.
#[derive(Debug)]
pub struct ExtraTask {
    pub path: RelativePath,
    pub request: ExtraRequest,
}

/// The values that an [`ExtraTask`] holds.
pub struct ExtraTaskView {
    pub path: Seq<char>,
    pub request: ExtraRequest,
}

impl View for ExtraTask {
    type V = ExtraTaskView;

    open spec fn view(&self) -> ExtraTaskView {
        ExtraTaskView { path: self.path@, request: self.request }
    }
}

/// A check that waits for an operation, or the end of one.
#[derive(Debug)]
pub enum ExtraStep {
    Pending(ExtraTask),
    Done(RSyncResult<RMirrorStatus>),
}

/// The values that an [`ExtraStep`] holds.
pub enum ExtraStepView {
    Pending(ExtraTaskView),
    Done(Result<RMirrorStatusView, RSyncError>),
}

impl View for ExtraStep {
    type V = ExtraStepView;

    open spec fn view(&self) -> ExtraStepView {
        match *self {
            ExtraStep::Pending(task) => ExtraStepView::Pending(task@),
            ExtraStep::Done(Ok(status)) => ExtraStepView::Done(Ok(status@)),
            ExtraStep::Done(Err(e)) => ExtraStepView::Done(Err(e)),
        }
    }
}

/// The step that waits for the first operation on an entry of the destination.
pub open spec fn first_extra_step(path: Seq<char>) -> ExtraStepView {
    ExtraStepView::Pending(ExtraTaskView { path, request: ExtraRequest::SourceExists })
}

/// The step after a reply. A reply to another operation than the one that the
/// check waits for leaves it waiting.
pub open spec fn next_extra_step(task: ExtraTaskView, reply: ExtraReply) -> ExtraStepView {
    let path = task.path;
    match (task.request, reply) {
        (ExtraRequest::SourceExists, ExtraReply::Exists(Ok(true))) => ExtraStepView::Done(
            Ok(RMirrorStatusView::NotDeleted(path)),
        ),
        (ExtraRequest::SourceExists, ExtraReply::Exists(Ok(false))) => ExtraStepView::Pending(
            ExtraTaskView { path, request: ExtraRequest::DestDelete },
        ),
        (ExtraRequest::SourceExists, ExtraReply::Exists(Err(e))) => ExtraStepView::Done(Err(e)),
        (ExtraRequest::DestDelete, ExtraReply::Deleted(Ok(()))) => ExtraStepView::Done(
            Ok(RMirrorStatusView::Deleted(path)),
        ),
        (ExtraRequest::DestDelete, ExtraReply::Deleted(Err(e))) => ExtraStepView::Done(Err(e)),
        _ => ExtraStepView::Pending(task),
    }
}

/// One of the two ends of a synchronisation.
#[derive(Debug, Clone, Copy, PartialEq, Eq, Structural)]
pub enum Side {
    Source,
    Dest,
}

/// How far mirroring has come: first what the source lists, then what the
/// destination lists.
#[derive(Debug, Clone, Copy, PartialEq, Eq, Structural)]
pub enum MirrorPhase {
    Syncing,
    Deleting,
    Finished,
}

impl MirrorPhase {
    /// The end whose listing comes next, while there is one.
    pub fn lists(&self) -> (res: Option<Side>)
        ensures
            res == (match *self {
                MirrorPhase::Syncing => Some(Side::Source),
                MirrorPhase::Deleting => Some(Side::Dest),
                MirrorPhase::Finished => None,
            }),
    {
        match self {
            MirrorPhase::Syncing => Some(Side::Source),
            MirrorPhase::Deleting => Some(Side::Dest),
            MirrorPhase::Finished => None,
        }
    }
}

/// Mirroring one entry: one that the source lists, or one that the destination
/// lists.
#[derive(Debug)]
pub enum MirrorStep {
    Sync(EntryStep),
    Extra(ExtraStep),
}

/// The values that a [`MirrorStep`] holds.
pub enum MirrorStepView {
    Sync(EntryStepView),
    Extra(ExtraStepView),
}

impl View for MirrorStep {
    type V = MirrorStepView;

    open spec fn view(&self) -> MirrorStepView {
        match *self {
            MirrorStep::Sync(step) => MirrorStepView::Sync(step@),
            MirrorStep::Extra(step) => MirrorStepView::Extra(step@),
        }
    }
}

/// An item of a listing: a name, or why the listing failed there.
pub type Listed = Result<Seq<char>, RSyncError>;

/// The item that a listing gave.
pub open spec fn listed_view(listed: RSyncResult<RelativePath>) -> Listed {
    match listed {
        Ok(path) => Ok(path@),
        Err(e) => Err(e),
    }
}

/// The next item of a listing that may be at its end.
pub open spec fn next_listed_view(listed: Option<RSyncResult<RelativePath>>) -> Option<Listed> {
    match listed {
        Some(l) => Some(listed_view(l)),
        None => None,
    }
}

/// The values that the start of mirroring an entry holds.
pub open spec fn mirror_step_view(step: RSyncResult<MirrorStep>) -> Result<
    MirrorStepView,
    RSyncError,
> {
    match step {
        Ok(s) => Ok(s@),
        Err(e) => Err(e),
    }
}

/// What the source's listing of an entry starts.
pub open spec fn source_item(listed: Listed) -> Result<MirrorStepView, RSyncError> {
    match listed {
        Ok(path) => Ok(MirrorStepView::Sync(crate::entry::first_step(path))),
        Err(e) => Err(e),
    }
}

/// What the destination's listing of an entry starts.
pub open spec fn dest_item(listed: Listed) -> Result<MirrorStepView, RSyncError> {
    match listed {
        Ok(path) => Ok(MirrorStepView::Extra(first_extra_step(path))),
        Err(e) => Err(e),
    }
}

/// The phase after the next item of the listing, and what that item starts.
pub open spec fn next_mirror(phase: MirrorPhase, listed: Option<Listed>) -> (
    MirrorPhase,
    Option<Result<MirrorStepView, RSyncError>>,
) {
    match (phase, listed) {
        (MirrorPhase::Syncing, Some(l)) => (MirrorPhase::Syncing, Some(source_item(l))),
        (MirrorPhase::Syncing, None) => (MirrorPhase::Deleting, None),
        (MirrorPhase::Deleting, Some(l)) => (MirrorPhase::Deleting, Some(dest_item(l))),
        (MirrorPhase::Deleting, None) => (MirrorPhase::Finished, None),
        (MirrorPhase::Finished, _) => (MirrorPhase::Finished, None),
    }
}

/// What mirroring an entry of the source came to.
pub fn synced(result: RSyncResult<RSyncStatus>) -> (res: RSyncResult<RMirrorStatus>)
    ensures
        match result {
            Ok(status) => res == Ok::<RMirrorStatus, RSyncError>(RMirrorStatus::Synced(status)),
            Err(e) => res == Err::<RMirrorStatus, RSyncError>(e),
        },
{
    match result {
        Ok(status) => Ok(RMirrorStatus::Synced(status)),
        Err(e) => Err(e),
    }
}

impl<T> RSync<T> {
    /// Checks an entry that the destination lists.
    pub fn delete_extras(&self, listed: RSyncResult<RelativePath>) -> (res: RSyncResult<ExtraStep>)
        ensures
            match listed {
                Ok(path) => res matches Ok(step) && step@ == first_extra_step(path@),
                Err(e) => res == Err::<ExtraStep, _>(e),
            },
            listed matches Ok(path) ==> res == Ok::<ExtraStep, RSyncError>(
                ExtraStep::Pending(ExtraTask { path, request: ExtraRequest::SourceExists }),
            ),
    {
        match listed {
            Ok(path) => Ok(
                ExtraStep::Pending(ExtraTask { path, request: ExtraRequest::SourceExists }),
            ),
            Err(e) => Err(e),
        }
    }

    /// Takes the reply to the operation that `task` waits for. Another reply
    /// leaves it waiting.
    pub fn resume_extra(&self, task: ExtraTask, reply: ExtraReply) -> (res: ExtraStep)
        ensures
            res@ == next_extra_step(task@, reply),
            res == (match (task.request, reply) {
                (ExtraRequest::SourceExists, ExtraReply::Exists(Ok(exists))) => if exists {
                    ExtraStep::Done(Ok(RMirrorStatus::NotDeleted(task.path)))
                } else {
                    ExtraStep::Pending(
                        ExtraTask { path: task.path, request: ExtraRequest::DestDelete },
                    )
                },
                (ExtraRequest::SourceExists, ExtraReply::Exists(Err(e))) => ExtraStep::Done(Err(e)),
                (ExtraRequest::DestDelete, ExtraReply::Deleted(Ok(()))) => ExtraStep::Done(
                    Ok(RMirrorStatus::Deleted(task.path)),
                ),
                (ExtraRequest::DestDelete, ExtraReply::Deleted(Err(e))) => ExtraStep::Done(Err(e)),
                _ => ExtraStep::Pending(task),
            }),
    {
        let ExtraTask { path, request } = task;
        match (request, reply) {
            (ExtraRequest::SourceExists, ExtraReply::Exists(Ok(exists))) => {
                if !exists {
                    ExtraStep::Pending(ExtraTask { path, request: ExtraRequest::DestDelete })
                } else {
                    ExtraStep::Done(Ok(RMirrorStatus::NotDeleted(path)))
                }
            },
            (ExtraRequest::SourceExists, ExtraReply::Exists(Err(e))) => ExtraStep::Done(Err(e)),
            (ExtraRequest::DestDelete, ExtraReply::Deleted(Ok(()))) => ExtraStep::Done(
                Ok(RMirrorStatus::Deleted(path)),
            ),
            (ExtraRequest::DestDelete, ExtraReply::Deleted(Err(e))) => ExtraStep::Done(Err(e)),
            (request, _) => ExtraStep::Pending(ExtraTask { path, request }),
        }
    }

    /// Takes the next item of the listing that `phase` waits for, or its end.
    pub fn mirror(&self, phase: MirrorPhase, listed: Option<RSyncResult<RelativePath>>) -> (res: (
        MirrorPhase,
        Option<RSyncResult<MirrorStep>>,
    ))
        ensures
            res.0 == next_mirror(phase, next_listed_view(listed)).0,
            match res.1 {
                Some(step) => next_mirror(phase, next_listed_view(listed)).1 == Some(
                    mirror_step_view(step),
                ),
                None => next_mirror(phase, next_listed_view(listed)).1 is None,
            },
            // Only the end of a listing ends a phase.
            res.0 == (match (phase, listed is Some) {
                (_, true) => phase,
                (MirrorPhase::Syncing, false) => MirrorPhase::Deleting,
                (MirrorPhase::Deleting, false) => MirrorPhase::Finished,
                (MirrorPhase::Finished, false) => MirrorPhase::Finished,
            }),
            // What the source lists is synchronised, from the start.
            phase is Syncing ==> (listed matches Some(Ok(path)) ==> res.1 == Some(
                Ok::<MirrorStep, RSyncError>(
                    MirrorStep::Sync(
                        EntryStep::Pending(EntryTask { path, state: TaskState::DestStat }),
                    ),
                ),
            )),
            // What the destination lists is checked, and the source is asked first.
            phase is Deleting ==> (listed matches Some(Ok(path)) ==> res.1 == Some(
                Ok::<MirrorStep, RSyncError>(
                    MirrorStep::Extra(
                        ExtraStep::Pending(
                            ExtraTask { path, request: ExtraRequest::SourceExists },
                        ),
                    ),
                ),
            )),
            // A failure of the listing is passed on.
            !(phase is Finished) ==> (listed matches Some(Err(e)) ==> res.1 == Some(
                Err::<MirrorStep, RSyncError>(e),
            )),
            // Nothing else starts anything.
            res.1 is None <==> phase is Finished || listed is None,
    {
        match (phase, listed) {
            (MirrorPhase::Syncing, Some(l)) => {
                let step = match self.sync(l) {
                    Ok(step) => Ok(MirrorStep::Sync(step)),
                    Err(e) => Err(e),
                };
                (MirrorPhase::Syncing, Some(step))
            },
            (MirrorPhase::Syncing, None) => (MirrorPhase::Deleting, None),
            (MirrorPhase::Deleting, Some(l)) => {
                let step = match self.delete_extras(l) {
                    Ok(step) => Ok(MirrorStep::Extra(step)),
                    Err(e) => Err(e),
                };
                (MirrorPhase::Deleting, Some(step))
            },
            (MirrorPhase::Deleting, None) => (MirrorPhase::Finished, None),
            (MirrorPhase::Finished, _) => (MirrorPhase::Finished, None),
        }
    }
}

} // verus!
