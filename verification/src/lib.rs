//! Synchronisation of a source storage to a destination storage, path by path.
//!
//! Nothing here reads or writes a storage. Synchronising or mirroring an entry is
//! a task that asks for one operation at a time; whoever runs the task performs
//! the operation and hands the reply back, until the task is done.

pub mod entry;
pub mod error;
pub mod filter;
pub mod laws;
pub mod mirror;
pub mod mirror_laws;
pub mod path;
pub mod rsync;
pub mod run_laws;
pub mod status;
pub mod storage;
pub mod sync_laws;
pub mod text;

pub use crate::error::RSyncError;
pub use crate::error::RSyncResult;
pub use crate::error::StorageError;
pub use crate::filter::RSyncFilter;
pub use crate::path::RelativePath;
pub use crate::rsync::RSync;
pub use crate::status::RMirrorStatus;
pub use crate::status::RSyncStatus;
pub use crate::storage::ReaderWriter;
