//! Failures of the sandbox.
use vstd::prelude::*;

use crate::wide::WideString;
use crate::win32::{hresult_from_win32, load_missing_codes};

verus! {

/// Why a sandbox operation failed.
#[derive(Debug, PartialEq)]
pub enum Error {
    /// The path of an exception does not exist.
    InvalidPath(WideString),
    /// A system call failed with this raw error number.
    Io(i32),
    /// The calling process has more than one thread.
    NotSingleThreaded,
}

/// What an `Error` says.
pub enum ErrorView {
    InvalidPath(Seq<u16>),
    Io(i32),
    NotSingleThreaded,
}

impl View for Error {
    type V = ErrorView;

    open spec fn view(&self) -> ErrorView {
        match self {
            Error::InvalidPath(path) => ErrorView::InvalidPath(path@),
            Error::Io(code) => ErrorView::Io(*code),
            Error::NotSingleThreaded => ErrorView::NotSingleThreaded,
        }
    }
}

/// What a system call on an object reports that failed with the result code `code`.
pub open spec fn object_error(code: i32, path: Seq<u16>) -> ErrorView {
    if code == crate::win32::hresult(crate::win32::missing_codes().path) || code
        == crate::win32::hresult(crate::win32::missing_codes().file) {
        ErrorView::InvalidPath(path)
    } else {
        ErrorView::Io(code)
    }
}

/// The error for a system call on the object `path` that failed with the result code `code`:
/// that the path is invalid where the object was not found, and the code itself otherwise.
pub fn map_to_birdcage_error(code: i32, path: &WideString) -> (r: Error)
    ensures
        r@ == object_error(code, path@),
{
    let missing = load_missing_codes();
    if code == hresult_from_win32(missing.path) || code == hresult_from_win32(missing.file) {
        Error::InvalidPath(path.clone())
    } else {
        Error::Io(code)
    }
}

/// The outcome of a system call that reports a Win32 status: zero is success, any other status
/// the failure with its result code.
pub fn status_result(status: u32) -> (r: Result<(), i32>)
    ensures
        r == (if status == 0 {
            Ok::<(), i32>(())
        } else {
            Err(crate::win32::hresult(status))
        }),
{
    if status == 0 {
        Ok(())
    } else {
        Err(hresult_from_win32(status))
    }
}

} // verus!
