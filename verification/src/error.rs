//! The failures that the operations of this crate report.
use core::str::Utf8Error;
use vstd::prelude::*;

verus! {

/// `core::str::Utf8Error`, the error that strict UTF-8 decoding reports.
/// A value of it is carried through unread.
#[verifier::external_type_specification]
#[verifier::external_body]
pub struct ExUtf8Error(Utf8Error);

/// Every failure a caller has to tell apart. No two kinds overlap.
#[derive(Debug, Clone, Copy, PartialEq, Eq)]
pub enum Error {
    /// The calling process may not inspect the target process.
    NoPermission,
    /// No process group exists for the given identifier.
    ProcessGroupNotFound,
    /// The identifier given is not a valid process identifier.
    InvalidPidSupplied,
    /// The process-group query failed with an error number that has no kind
    /// of its own.
    UnknownGetpguidFailure,
    /// The page-size query failed.
    SysConfFailed,
    /// The requested end of a slice lies outside the buffer.
    StringFromBytes,
    /// The bytes are not valid UTF-8; the decoder's own error is kept.
    Utf8(Utf8Error),
}

} // verus!
