//! What became of an entry.

use crate::path::RelativePath;
use vstd::prelude::*;

verus! {

/// What synchronising one entry came to.
#[derive(Debug, PartialEq, Eq, PartialOrd, Ord)]
pub enum RSyncStatus {
    /// The destination did not have the entry; it has it now.
    Created(RelativePath),
    /// The entry was written again, for the reason given.
    Updated { reason: String, path: RelativePath },
    /// The entry was left as it is, for the reason given.
    AlreadySynced { reason: String, path: RelativePath },
    /// The entry was not looked at, for the reason given.
    Ignored { reason: String, path: RelativePath },
}

/// The texts that an [`RSyncStatus`] holds.
pub enum RSyncStatusView {
    Created(Seq<char>),
    Updated { reason: Seq<char>, path: Seq<char> },
    AlreadySynced { reason: Seq<char>, path: Seq<char> },
    Ignored { reason: Seq<char>, path: Seq<char> },
}

impl View for RSyncStatus {
    type V = RSyncStatusView;

    open spec fn view(&self) -> RSyncStatusView {
        match self {
            RSyncStatus::Created(path) => RSyncStatusView::Created(path@),
            RSyncStatus::Updated { reason, path } => RSyncStatusView::Updated {
                reason: reason@,
                path: path@,
            },
            RSyncStatus::AlreadySynced { reason, path } => RSyncStatusView::AlreadySynced {
                reason: reason@,
                path: path@,
            },
            RSyncStatus::Ignored { reason, path } => RSyncStatusView::Ignored {
                reason: reason@,
                path: path@,
            },
        }
    }
}

impl RSyncStatusView {
    /// The name of the entry that the status is about.
    pub open spec fn path(self) -> Seq<char> {
        match self {
            RSyncStatusView::Created(path) => path,
            RSyncStatusView::Updated { path, .. } => path,
            RSyncStatusView::AlreadySynced { path, .. } => path,
            RSyncStatusView::Ignored { path, .. } => path,
        }
    }

    /// Whether the status tells that the entry was copied.
    pub open spec fn is_copied(self) -> bool {
        self is Created || self is Updated
    }
}

impl RSyncStatus {
    /// The entry was written again.
    pub fn updated(reason: &str, path: &RelativePath) -> (res: Self)
        ensures
            res@ == (RSyncStatusView::Updated { reason: reason@, path: path@ }),
            res matches RSyncStatus::Updated { reason: r, path: p } && r@ == reason@ && p == *path,
    {
        let reason = reason.to_owned();
        let path = path.clone();
        RSyncStatus::Updated { reason, path }
    }

    /// The entry was left as it is.
    pub fn already_synced(reason: &str, path: &RelativePath) -> (res: Self)
        ensures
            res@ == (RSyncStatusView::AlreadySynced { reason: reason@, path: path@ }),
            res matches RSyncStatus::AlreadySynced { reason: r, path: p } && r@ == reason@ && p == *path,
    {
        let reason = reason.to_owned();
        let path = path.clone();
        RSyncStatus::AlreadySynced { reason, path }
    }

    /// The entry was not looked at.
    pub fn ignored(reason: &str, path: &RelativePath) -> (res: Self)
        ensures
            res@ == (RSyncStatusView::Ignored { reason: reason@, path: path@ }),
            res matches RSyncStatus::Ignored { reason: r, path: p } && r@ == reason@ && p == *path,
    {
        let reason = reason.to_owned();
        let path = path.clone();
        RSyncStatus::Ignored { reason, path }
    }
}

/// What mirroring one entry came to.
#[derive(Debug, PartialEq, Eq, PartialOrd, Ord)]
pub enum RMirrorStatus {
    /// The entry is one of the source, and was synchronised.
    Synced(RSyncStatus),
    /// The entry was one of the destination only, and is gone.
    Deleted(RelativePath),
    /// The entry is one of the destination that the source has too.
    NotDeleted(RelativePath),
}

/// The texts that an [`RMirrorStatus`] holds.
pub enum RMirrorStatusView {
    Synced(RSyncStatusView),
    Deleted(Seq<char>),
    NotDeleted(Seq<char>),
}

impl View for RMirrorStatus {
    type V = RMirrorStatusView;

    open spec fn view(&self) -> RMirrorStatusView {
        match self {
            RMirrorStatus::Synced(status) => RMirrorStatusView::Synced(status@),
            RMirrorStatus::Deleted(path) => RMirrorStatusView::Deleted(path@),
            RMirrorStatus::NotDeleted(path) => RMirrorStatusView::NotDeleted(path@),
        }
    }
}

} // verus!
