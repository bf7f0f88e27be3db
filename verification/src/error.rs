//! The errors of a synchronisation.

use crate::text::debug_io_error;
use crate::text::debug_path;
use crate::text::debug_str;
use std::path::Path;
use std::path::PathBuf;
use vstd::prelude::*;

verus! {

/// `std::path::PathBuf`, an owned path.
#[verifier::external_type_specification]
#[verifier::external_body]
pub struct ExPathBuf(std::path::PathBuf);

/// `std::path::Path`, a borrowed path.
#[verifier::external_type_specification]
#[verifier::external_body]
pub struct ExPath(std::path::Path);

/// What a borrowed path holds: its bytes, in the encoding of the platform.
pub uninterp spec fn path_bytes(path: &std::path::Path) -> Seq<u8>;

/// What an owned path holds: its bytes, in the encoding of the platform.
pub uninterp spec fn path_buf_bytes(path: std::path::PathBuf) -> Seq<u8>;

/// `std::path::Path::to_path_buf` makes an owned path of a borrowed one. Claimed:
/// the two hold the same.
pub assume_specification[ std::path::Path::to_path_buf ](path: &std::path::Path) -> (res:
    std::path::PathBuf)
    ensures
        path_buf_bytes(res) == path_bytes(path),
;

/// `std::io::Error`, carried through errors without being read.
#[verifier::external_type_specification]
#[verifier::external_body]
pub struct ExIoError(std::io::Error);

/// An error of the storage layer, as the text that it prints for debugging.
pub struct StorageError {
    pub text: String,
}

impl StorageError {
    /// The error that prints as `text`.
    pub fn new(text: &str) -> (res: Self)
        ensures
            res.text@ == text@,
    {
        StorageError { text: text.to_owned() }
    }
}

impl std::fmt::Debug for StorageError {
    /// Prints the text of the storage layer as it is.
    fn fmt(&self, f: &mut std::fmt::Formatter<'_>) -> (res: std::fmt::Result)
        ensures
            res is Ok ==> crate::text::formatted(*final(f)) == crate::text::formatted(*old(f))
                + self.text@,
    {
        f.write_str(self.text.as_str())
    }
}

/// Why a path, a filter or an operation on a storage failed.
#[derive(Debug)]
pub enum RSyncError {
    /// An answer of the bucket lacks the fields named here.
    MissingFieldsInGcsResponse(String),
    /// The bucket refused an operation.
    StorageError(StorageError),
    /// An operation on the file system failed.
    FsIoError { path: PathBuf, message: String, error: std::io::Error },
    /// A relative path names nothing.
    EmptyRelativePathError,
    /// A filter is missing, or is not a regular expression.
    InvalidRegexError,
}

/// What an error of the file system prints as, given what its parts print as.
pub open spec fn fs_io_text(path: Seq<char>, message: Seq<char>, error: Seq<char>) -> Seq<char> {
    "FsIoError { path: "@ + path + ", message: "@ + message + ", error: "@ + error + " }"@
}

/// What an error of the file system prints as, given what its parts print as.
pub fn fs_io_error_text(path: &str, message: &str, error: &str) -> (res: String)
    ensures
        res@ == fs_io_text(path@, message@, error@),
        res@ == "FsIoError { path: "@ + path@ + ", message: "@ + message@ + ", error: "@ + error@
            + " }"@,
{
    "FsIoError { path: ".to_owned().concat(path).concat(", message: ").concat(message).concat(
        ", error: ",
    ).concat(error).concat(" }")
}

/// The result of an operation that can fail with an [`RSyncError`].
pub type RSyncResult<T> = Result<T, RSyncError>;

/// Whether an error prints as `text`: the name of its kind, and what it holds. What
/// a cause that the system gave prints as is the system's own.
pub open spec fn is_error_text(error: RSyncError, text: Seq<char>) -> bool {
    match error {
        RSyncError::MissingFieldsInGcsResponse(fields) => text == "MissingFieldsInGcsResponse("@
            + crate::text::str_debug(fields@) + ")"@,
        RSyncError::StorageError(e) => text == "StorageError("@ + e.text@ + ")"@,
        RSyncError::FsIoError { path, message, .. } => exists|cause: Seq<char>|
            text == #[trigger] fs_io_text(
                crate::text::path_debug(path_buf_bytes(path)),
                crate::text::str_debug(message@),
                cause,
            ),
        RSyncError::EmptyRelativePathError => text == "EmptyRelativePathError"@,
        RSyncError::InvalidRegexError => text == "InvalidRegexError"@,
    }
}

impl RSyncError {
    /// The error of a file system operation on `path`, with the message of the
    /// operation and the cause that the system gave.
    pub fn fs_io_error(message: &str, path: &Path, error: std::io::Error) -> (res: RSyncError)
        ensures
            res matches RSyncError::FsIoError { path: p, message: m, error: e } && path_buf_bytes(p)
                == path_bytes(path) && m@ == message@ && e == error,
    {
        RSyncError::FsIoError { path: path.to_path_buf(), message: message.to_owned(), error }
    }

    /// What the error prints as: the name of its kind, and what it holds.
    pub fn to_text(&self) -> (res: String)
        ensures
            is_error_text(*self, res@),
            match *self {
                RSyncError::MissingFieldsInGcsResponse(fields) => res@
                    == "MissingFieldsInGcsResponse("@ + crate::text::str_debug(fields@) + ")"@,
                RSyncError::StorageError(e) => res@ == "StorageError("@ + e.text@ + ")"@,
                RSyncError::FsIoError { path, message, .. } => {
                    let start = "FsIoError { path: "@ + crate::text::path_debug(
                        path_buf_bytes(path),
                    ) + ", message: "@ + crate::text::str_debug(message@) + ", error: "@;
                    let end = " }"@;
                    &&& res@.len() >= start.len() + end.len()
                    &&& res@.take(start.len() as int) == start
                    &&& res@.skip(res@.len() - end.len()) == end
                },
                RSyncError::EmptyRelativePathError => res@ == "EmptyRelativePathError"@,
                RSyncError::InvalidRegexError => res@ == "InvalidRegexError"@,
            },
    {
        match self {
            RSyncError::MissingFieldsInGcsResponse(fields) => {
                let fields = debug_str(fields.as_str());
                "MissingFieldsInGcsResponse(".to_owned().concat(fields.as_str()).concat(")")
            },
            RSyncError::StorageError(error) => "StorageError(".to_owned().concat(
                error.text.as_str(),
            ).concat(")"),
            RSyncError::FsIoError { path, message, error } => {
                let cause = debug_io_error(error);
                let text = fs_io_error_text(
                    debug_path(path).as_str(),
                    debug_str(message.as_str()).as_str(),
                    cause.as_str(),
                );
                proof {
                    let start = "FsIoError { path: "@ + crate::text::path_debug(
                        path_buf_bytes(*path),
                    ) + ", message: "@ + crate::text::str_debug(message@) + ", error: "@;
                    let end = " }"@;
                    assert(text@ == start + cause@ + end);
                    assert(text@.take(start.len() as int) =~= start);
                    assert(text@.skip(text@.len() - end.len()) =~= end);
                }
                text
            },
            RSyncError::EmptyRelativePathError => "EmptyRelativePathError".to_owned(),
            RSyncError::InvalidRegexError => "InvalidRegexError".to_owned(),
        }
    }
}

impl std::fmt::Display for RSyncError {
    /// Prints what the error prints for debugging.
    fn fmt(&self, f: &mut std::fmt::Formatter<'_>) -> (res: std::fmt::Result)
        ensures
            res is Ok ==> exists|text: Seq<char>| #[trigger]
                is_error_text(*self, text) && crate::text::formatted(*final(f))
                    == crate::text::formatted(*old(f)) + text,
    {
        let text = self.to_text();
        f.write_str(text.as_str())
    }
}

impl std::error::Error for RSyncError {

}

} // verus!
