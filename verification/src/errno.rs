//! The error numbers that the process-group query is classified by, as Linux
//! numbers them.
use vstd::prelude::*;

verus! {

/// The number of the error "operation not permitted".
pub open spec fn not_permitted() -> i32 {
    1
}

/// The number of the error "no such process".
pub open spec fn no_such_process() -> i32 {
    3
}

/// The number of the error "invalid argument".
pub open spec fn invalid_argument() -> i32 {
    22
}

/// Reads the constant `libc::EPERM`. That it is 1 is taken on trust from
/// `libc`'s definition for Linux.
#[verifier::external_body]
pub(crate) fn eperm() -> (code: i32)
    ensures
        code == not_permitted(),
{
    libc::EPERM
}

/// Reads the constant `libc::ESRCH`. That it is 3 is taken on trust from
/// `libc`'s definition for Linux.
#[verifier::external_body]
pub(crate) fn esrch() -> (code: i32)
    ensures
        code == no_such_process(),
{
    libc::ESRCH
}

/// Reads the constant `libc::EINVAL`. That it is 22 is taken on trust from
/// `libc`'s definition for Linux.
#[verifier::external_body]
pub(crate) fn einval() -> (code: i32)
    ensures
        code == invalid_argument(),
{
    libc::EINVAL
}

} // verus!
