//! Printing: what `std` prints of a value, and where it prints it to.

use std::path::PathBuf;
use vstd::prelude::*;

verus! {

/// `core::fmt::Formatter`, where a value prints itself to.
#[verifier::external_type_specification]
#[verifier::external_body]
pub struct ExFormatter<'a>(core::fmt::Formatter<'a>);

/// `core::fmt::Error`, why printing failed.
#[verifier::external_type_specification]
#[verifier::external_body]
pub struct ExFmtError(core::fmt::Error);

/// What a formatter holds: the text that was written to it.
pub uninterp spec fn formatted(f: core::fmt::Formatter<'_>) -> Seq<char>;

/// `core::fmt::Formatter::write_str` writes a text to the buffer of a formatter.
/// Claimed: where it does not fail, the text comes after what was written before.
pub assume_specification<'a>[ core::fmt::Formatter::<'a>::write_str ](
    f: &mut core::fmt::Formatter<'a>,
    data: &str,
) -> (res: core::fmt::Result)
    ensures
        res is Ok ==> formatted(*final(f)) == formatted(*old(f)) + data@,
;

/// What `std` prints of a string for debugging: its text, quoted and escaped.
pub uninterp spec fn str_debug(text: Seq<char>) -> Seq<char>;

/// `Debug` on `str`. Claimed: the text alone decides what is printed.
#[verifier::external_body]
pub(crate) fn debug_str(text: &str) -> (res: String)
    ensures
        res@ == str_debug(text@),
{
    format!("{:?}", text)
}

/// What `std` prints of a path for debugging, on the target of the build: its
/// bytes as text, quoted and escaped.
pub uninterp spec fn path_debug(bytes: Seq<u8>) -> Seq<char>;

/// `Debug` on `std::path::PathBuf`. Claimed: what the path holds alone decides
/// what is printed.
#[verifier::external_body]
pub(crate) fn debug_path(path: &PathBuf) -> (res: String)
    ensures
        res@ == path_debug(crate::error::path_buf_bytes(*path)),
{
    format!("{:?}", path)
}

/// `Debug` on `std::io::Error`. Nothing is claimed: what is printed holds the
/// message of the operating system.
#[verifier::external_body]
pub(crate) fn debug_io_error(error: &std::io::Error) -> (res: String) {
    format!("{:?}", error)
}

} // verus!
