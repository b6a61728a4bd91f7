//! What the library takes from the operating system's error model: the
//! I/O error type of the standard library, the error numbers of libc, and
//! the UTF-8 check of `String`. The contracts in this file are believed,
//! not proved.

use vstd::prelude::*;
use vstd::utf8::*;

verus! {

/// `std::io::Error`, carried through as an opaque value.
#[verifier::external_type_specification]
#[verifier::external_body]
pub struct ExIoError(std::io::Error);

/// `std::string::FromUtf8Error`, the error of `String::from_utf8`, carried
/// through as an opaque value.
#[verifier::external_type_specification]
#[verifier::external_body]
pub struct ExFromUtf8Error(std::string::FromUtf8Error);

/// The error number for "no such file or directory" on Linux.
pub const NO_ENTRY: i32 = 2;

/// The OS error number that an I/O error carries: what
/// `std::io::Error::raw_os_error` returns for it.
pub uninterp spec fn raw_os_code(e: std::io::Error) -> Option<i32>;

/// Whether an I/O error is of the kind "permission denied": whether
/// `std::io::Error::kind` returns `ErrorKind::PermissionDenied` for it.
pub uninterp spec fn is_permission_denied(e: std::io::Error) -> bool;

/// `std::io::Error::from_raw_os_error`: the error made from an OS error
/// number carries that number.
#[verifier::external_body]
pub(crate) fn os_error(code: i32) -> (e: std::io::Error)
    ensures
        raw_os_code(e) == Some(code),
{
    std::io::Error::from_raw_os_error(code)
}

/// `std::io::Error::kind`, asked for one kind only: the result says whether
/// the error's kind is "permission denied".
#[verifier::external_body]
pub(crate) fn permission_denied(e: &std::io::Error) -> (denied: bool)
    ensures
        denied == is_permission_denied(*e),
{
    match e.kind() {
        std::io::ErrorKind::PermissionDenied => true,
        _ => false,
    }
}

/// `libc::ENOENT`, the error number for "no such file or directory". On
/// Linux libc defines it as 2, which is `NO_ENTRY`.
#[verifier::external_body]
pub(crate) fn no_entry_code() -> (code: i32)
    ensures
        code == NO_ENTRY,
{
    libc::ENOENT
}

/// The text that `Display` gives for an I/O error. It comes from the
/// operating system, so nothing is claimed of it.
#[verifier::external_body]
pub(crate) fn describe(e: &std::io::Error) -> (text: String) {
    format!("{}", e)
}

/// `String::from_utf8` succeeds exactly on well-formed UTF-8, and the string
/// then holds the characters that the bytes encode.
pub assume_specification[ String::from_utf8 ](vec: Vec<u8>) -> (res: Result<
    String,
    std::string::FromUtf8Error,
>)
    ensures
        res.is_ok() == valid_utf8(vec@),
        res matches Ok(s) ==> s@ == decode_utf8(vec@),
;

} // verus!
