//! The operations: each turns what the system reported into a typed result.
use crate::errno::{einval, eperm, esrch, invalid_argument, no_such_process, not_permitted};
use crate::error::Error;
use crate::text::{decoded_text, is_terminated, text_bytes, text_end};
use crate::utf8::{lossy_string, utf8_lossy};
use vstd::prelude::*;
use vstd::slice::slice_subrange;
use vstd::std_specs::convert::IntoSpec;
use vstd::utf8::{decode_utf8, encode_utf8_decode_utf8, valid_utf8};

verus! {

/// The value by which `getpgid` and `sysconf` report that they failed.
pub open spec fn failure_sentinel() -> int {
    -1
}

/// The kind of failure that an error number of the process-group query
/// stands for. Every number without a kind of its own falls to
/// `UnknownGetpguidFailure`.
pub open spec fn getpgid_failure(errno: i32) -> Error {
    if errno == not_permitted() {
        Error::NoPermission
    } else if errno == no_such_process() {
        Error::ProcessGroupNotFound
    } else if errno == invalid_argument() {
        Error::InvalidPidSupplied
    } else {
        Error::UnknownGetpguidFailure
    }
}

/// What a process-group query that returned `raw` and left the error number
/// `errno` means: the group id, passed through unchanged, unless `raw` is the
/// failure sentinel.
pub open spec fn process_group_outcome(raw: i32, errno: i32) -> Result<i32, Error> {
    if raw == failure_sentinel() {
        Err(getpgid_failure(errno))
    } else {
        Ok(raw)
    }
}

/// Interprets the outcome of a process-group query (`getpgid`): `raw` is what
/// the call returned and `errno` the error number read right after it. The
/// error number is looked at only when the call failed.
pub fn get_process_group(raw: i32, errno: i32) -> (group: Result<i32, Error>)
    ensures
        group == process_group_outcome(raw, errno),
        raw != failure_sentinel() ==> group == Ok::<i32, Error>(raw),
{
    if raw == -1 {
        if errno == eperm() {
            Err(Error::NoPermission)
        } else if errno == esrch() {
            Err(Error::ProcessGroupNotFound)
        } else if errno == einval() {
            Err(Error::InvalidPidSupplied)
        } else {
            Err(Error::UnknownGetpguidFailure)
        }
    } else {
        Ok(raw)
    }
}

/// A failed process-group query whose error number is one of the three with
/// a kind of its own is reported under that kind, never under the catch-all.
pub proof fn lemma_enumerated_errors_are_mapped(errno: i32)
    requires
        errno == not_permitted() || errno == no_such_process() || errno == invalid_argument(),
    ensures
        process_group_outcome(-1i32, errno) is Err,
        process_group_outcome(-1i32, errno) != Err::<i32, Error>(Error::UnknownGetpguidFailure),
        errno == not_permitted() ==> process_group_outcome(-1i32, errno) == Err::<i32, Error>(
            Error::NoPermission,
        ),
        errno == no_such_process() ==> process_group_outcome(-1i32, errno) == Err::<i32, Error>(
            Error::ProcessGroupNotFound,
        ),
        errno == invalid_argument() ==> process_group_outcome(-1i32, errno) == Err::<i32, Error>(
            Error::InvalidPidSupplied,
        ),
{
}

/// Whether a process whose effective user id is `euid` runs with superuser
/// privileges: exactly when that id is 0.
pub fn running_as_sudo(euid: u32) -> (sudo: bool)
    ensures
        sudo == (euid == 0),
{
    euid == 0
}

/// Interprets the outcome of a page-size query (`sysconf`), widened to 64
/// bits: the page size in bytes, unless `raw` is the failure sentinel.
pub fn page_size(raw: i64) -> (size: Result<i64, Error>)
    ensures
        raw == failure_sentinel() ==> size == Err::<i64, Error>(Error::SysConfFailed),
        raw != failure_sentinel() ==> size == Ok::<i64, Error>(raw),
{
    if raw == -1 {
        Err(Error::SysConfFailed)
    } else {
        Ok(raw)
    }
}

/// The size in bytes of the scratch buffer that a user-database query is
/// given to write its strings into.
pub const USER_SCRATCH_LEN: usize = 2048;

/// The bytes of the login name that a user-database query (`getpwuid_r`)
/// left behind, if it left one: the query returned `code` and reported an
/// entry or not (`found`), `scratch` is the buffer it wrote into, and
/// `name_start` the place in it where the entry's name begins. There is a name
/// where the query succeeded, reported an entry, and the name starts inside
/// the buffer and is ended by a zero byte inside it.
pub open spec fn entry_name(code: i32, found: bool, scratch: Seq<u8>, name_start: int) -> Option<
    Seq<u8>,
> {
    if code == 0 && found && 0 <= name_start < scratch.len() && is_terminated(
        scratch.skip(name_start),
    ) {
        Some(text_bytes(scratch.skip(name_start)))
    } else {
        None
    }
}

/// The login name that a user-database query resolved, decoded lossily, or
/// `None` where it resolved none.
pub open spec fn resolved_username(
    code: i32,
    found: bool,
    scratch: Seq<u8>,
    name_start: int,
) -> Option<Seq<char>> {
    match entry_name(code, found, scratch, name_start) {
        Some(bytes) => Some(utf8_lossy(bytes)),
        None => None,
    }
}

/// Interprets the outcome of a user-database query (`getpwuid_r`) for the
/// effective user: the entry's login name as an owned string, or `None`
/// where no name was resolved. Bytes that are not valid UTF-8 are replaced,
/// never refused. A name that is not ended inside the scratch buffer counts
/// as not resolved.
pub fn get_username(code: i32, found: bool, scratch: &[u8], name_start: usize) -> (name: Option<
    String,
>)
    ensures
        match name {
            Some(s) => resolved_username(code, found, scratch@, name_start as int) == Some(s@),
            None => resolved_username(code, found, scratch@, name_start as int) is None,
        },
        !found || code != 0 ==> name is None,
        name matches Some(s) ==> (valid_utf8(
            entry_name(code, found, scratch@, name_start as int)->0,
        ) ==> s@ == decode_utf8(entry_name(code, found, scratch@, name_start as int)->0)),
{
    if code != 0 || !found || name_start >= scratch.len() {
        return None;
    }
    let tail = slice_subrange(scratch, name_start, scratch.len());
    let end = text_end(tail);
    if end == tail.len() {
        return None;
    }
    let bytes = slice_subrange(tail, 0, end);
    Some(lossy_string(bytes))
}

/// The first `end` bytes of `buf`, or `StringFromBytes` where `end` lies
/// outside the buffer.
pub fn slice_until(buf: &[u8], end: usize) -> (head: Result<&[u8], Error>)
    ensures
        match head {
            Ok(bytes) => end <= buf@.len() && bytes@ == buf@.subrange(0, end as int),
            Err(e) => end > buf@.len() && e == Error::StringFromBytes,
        },
{
    if end <= buf.len() {
        Ok(slice_subrange(buf, 0, end))
    } else {
        Err(Error::StringFromBytes)
    }
}

/// Reads the text in a fixed-size buffer as a string that borrows from it:
/// the bytes before the first zero byte, or all of them where none is zero.
/// Fails with the decoder's error exactly where those bytes are not valid
/// UTF-8; the end of the text always lies inside the buffer, so
/// `StringFromBytes` never comes back.
pub fn str_from_u8(buf: &[u8]) -> (text: Result<&str, Error>)
    ensures
        match text {
            Ok(s) => decoded_text(buf@) == Some(s@),
            Err(e) => decoded_text(buf@) is None && e is Utf8,
        },
{
    let end = text_end(buf);
    let bytes = match slice_until(buf, end) {
        Ok(bytes) => bytes,
        Err(e) => {
            return Err(e);
        },
    };
    match core::str::from_utf8(bytes) {
        Ok(s) => {
            proof {
                encode_utf8_decode_utf8(s@);
            }
            Ok(s)
        },
        Err(e) => Err(Error::Utf8(e)),
    }
}

/// The number of bytes in a megabyte.
pub const B_TO_MB: u64 = 1_000_000;

/// `bytes` in whole megabytes, times `mem_unit`: the division comes first and
/// drops the remainder, and the product is taken in 64 unsigned bits.
pub open spec fn megabytes(bytes: u64, mem_unit: u64) -> u64 {
    (((bytes / B_TO_MB) * mem_unit) % 0x1_0000_0000_0000_0000) as u64
}

/// Converts a byte count to megabytes and scales it by `mem_unit`.
pub fn scale_to_megabytes(bytes: u64, mem_unit: u64) -> (mb: u64)
    ensures
        mb == megabytes(bytes, mem_unit),
        (bytes / B_TO_MB) * mem_unit <= u64::MAX ==> mb == (bytes / B_TO_MB) * mem_unit,
{
    let whole: u64 = bytes / B_TO_MB;
    whole.wrapping_mul(mem_unit)
}

/// Converts a byte count to megabytes and scales it by `mem_unit`, after
/// widening both to 64 unsigned bits.
pub fn bytes_to_megabytes<B: Into<u64>, M: Into<u64>>(bytes: B, mem_unit: M) -> (mb: u64)
    ensures
        B::obeys_into_spec() && M::obeys_into_spec() ==> mb == megabytes(
            bytes.into_spec(),
            mem_unit.into_spec(),
        ),
{
    scale_to_megabytes(bytes.into(), mem_unit.into())
}

} // verus!
