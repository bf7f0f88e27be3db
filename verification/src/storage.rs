//! The two ends of a synchronisation, and what they tell of their entries.

use crate::error::RSyncResult;
use crate::path::RelativePath;
use std::path::Path;
use std::path::PathBuf;
use vstd::prelude::*;

verus! {

/// The size of an entry, in bytes.
pub type Size = u64;

/// A time of last modification, as the two numbers that a `chrono::DateTime<Utc>`
/// is made of: non-leap seconds since the start of 1970 (`timestamp`), and the
/// nanoseconds since the last second boundary (`timestamp_subsec_nanos`).
#[derive(Debug, Clone, Copy, PartialEq, Eq, Structural)]
pub struct Mtime {
    pub secs: i64,
    pub nanos: u32,
}

impl Mtime {
    /// The number of whole seconds since the start of 1970 (UTC).
    pub fn timestamp(&self) -> (res: i64)
        ensures
            res == self.secs,
    {
        self.secs
    }
}

/// What a storage tells of an entry without reading it: the time of its last
/// modification and its size, each where it is known. An entry that the storage
/// does not have has neither.
pub type SizeAndMt = (Option<Mtime>, Option<Size>);

/// The checksum of an entry.
#[derive(Debug)]
pub struct Entry {
    pub path: RelativePath,
    pub crc32c: u32,
}

/// The name and the checksum that an [`Entry`] holds.
pub struct EntryView {
    pub path: Seq<char>,
    pub crc32c: u32,
}

impl View for Entry {
    type V = EntryView;

    open spec fn view(&self) -> EntryView {
        EntryView { path: self.path@, crc32c: self.crc32c }
    }
}

/// The values that a checksum holds, where there is one.
pub open spec fn entry_view(entry: Option<Entry>) -> Option<EntryView> {
    match entry {
        Some(e) => Some(e@),
        None => None,
    }
}

impl Entry {
    /// The checksum of the entry named `path`.
    pub fn new(path: &RelativePath, crc32c: u32) -> (res: Self)
        ensures
            res@ == (EntryView { path: path@, crc32c }),
            res == (Entry { path: *path, crc32c }),
    {
        Entry { path: path.clone(), crc32c }
    }
}

impl Clone for Entry {
    fn clone(&self) -> (res: Self)
        ensures
            res == *self,
    {
        Entry { path: self.path.clone(), crc32c: self.crc32c }
    }
}

impl PartialEq for Entry {
    fn eq(&self, other: &Self) -> (res: bool) {
        self.path == other.path && self.crc32c == other.crc32c
    }
}

impl vstd::std_specs::cmp::PartialEqSpecImpl for Entry {
    open spec fn obeys_eq_spec() -> bool {
        true
    }

    open spec fn eq_spec(&self, other: &Self) -> bool {
        self@ == other@
    }
}

/// A bucket, and the prefix under which its entries are looked for.
#[derive(Debug)]
pub struct GcsClient<T> {
    pub token_generator: T,
    pub bucket: String,
    pub prefix: String,
}

impl<T> GcsClient<T> {
    /// The entries of `bucket` under `prefix`, as `token_generator` may see them.
    pub fn new(token_generator: T, bucket: &str, prefix: &str) -> (res: Self)
        ensures
            res.token_generator == token_generator,
            res.bucket@ == bucket@,
            res.prefix@ == prefix@,
    {
        GcsClient { token_generator, bucket: bucket.to_owned(), prefix: prefix.to_owned() }
    }
}

/// A directory of the file system.
#[derive(Debug)]
pub struct FsClient {
    pub base_path: PathBuf,
}

impl FsClient {
    /// The entries under `base_path`.
    pub fn new(base_path: &Path) -> (res: Self)
        ensures
            crate::error::path_buf_bytes(res.base_path) == crate::error::path_bytes(base_path),
    {
        FsClient { base_path: base_path.to_path_buf() }
    }
}

/// How an entry is written: with a time of last modification, or without one.
#[derive(Debug, Clone, Copy, PartialEq, Eq, Structural)]
pub enum WriteKind {
    WithMtime(Mtime),
    Plain,
}

/// One end of a synchronisation: a bucket or a directory.
#[derive(Debug)]
pub enum ReaderWriterInternal<T> {
    Gcs(GcsClient<T>),
    Fs(FsClient),
}

/// A bucket keeps every time of last modification that is known; a directory
/// keeps it only where this is asked for.
pub open spec fn write_kind(
    is_fs: bool,
    mtime: Option<Mtime>,
    set_fs_mtime: bool,
) -> WriteKind {
    match mtime {
        Some(mt) if !is_fs || set_fs_mtime => WriteKind::WithMtime(mt),
        _ => WriteKind::Plain,
    }
}

impl<T> ReaderWriterInternal<T> {
    /// How this end writes an entry whose time of last modification is `mtime`.
    pub fn write(&self, mtime: Option<Mtime>, set_fs_mtime: bool) -> (res: WriteKind)
        ensures
            res == write_kind(self is Fs, mtime, set_fs_mtime),
            res == (match mtime {
                Some(mt) if self is Gcs || set_fs_mtime => WriteKind::WithMtime(mt),
                _ => WriteKind::Plain,
            }),
    {
        match self {
            ReaderWriterInternal::Gcs(_) => match mtime {
                Some(mtime) => WriteKind::WithMtime(mtime),
                None => WriteKind::Plain,
            },
            ReaderWriterInternal::Fs(_) => match (mtime, set_fs_mtime) {
                (Some(mtime), true) => WriteKind::WithMtime(mtime),
                _ => WriteKind::Plain,
            },
        }
    }
}

/// One end of a synchronisation, as a caller sets it up.
#[derive(Debug)]
pub struct ReaderWriter<T> {
    pub inner: ReaderWriterInternal<T>,
}

/// An end that is most often a bucket.
pub type GcsSource<T> = ReaderWriter<T>;

impl<T> ReaderWriter<T> {
    /// The end that a client stands for.
    pub fn new(inner: ReaderWriterInternal<T>) -> (res: Self)
        ensures
            res.inner == inner,
    {
        ReaderWriter { inner }
    }

    /// A bucket, where connecting to it did not fail.
    pub fn gcs(client: RSyncResult<GcsClient<T>>) -> (res: RSyncResult<Self>)
        ensures
            match client {
                Ok(c) => res == Ok::<Self, crate::error::RSyncError>(
                    ReaderWriter { inner: ReaderWriterInternal::Gcs(c) },
                ),
                Err(e) => res == Err::<Self, crate::error::RSyncError>(e),
            },
    {
        match client {
            Ok(client) => Ok(ReaderWriter::new(ReaderWriterInternal::Gcs(client))),
            Err(e) => Err(e),
        }
    }

    /// The directory `base_path`.
    pub fn fs(base_path: &Path) -> (res: Self)
        ensures
            res.inner matches ReaderWriterInternal::Fs(client) && crate::error::path_buf_bytes(
                client.base_path,
            ) == crate::error::path_bytes(base_path),
    {
        let client = FsClient::new(base_path);
        ReaderWriter::new(ReaderWriterInternal::Fs(client))
    }
}

} // verus!
