//! Errors of the system-call layer and their Linux error numbers.
use vstd::prelude::*;
use axerrno::{AxErrorKind, LinuxError};

verus! {

/// The error kinds that the system-call layer raises itself
/// (a subset of `axerrno::AxErrorKind`).
#[derive(Clone, Copy, Debug, PartialEq, Eq, Structural)]
pub enum ErrorKind {
    BadAddress,
    BadFileDescriptor,
    InvalidInput,
    NoSuchProcess,
    NotADirectory,
    NotFound,
    ResourceBusy,
    TooManyOpenFiles,
    Unsupported,
}

/// An error of a system call: one of the kinds above, or a raw Linux error
/// number (in `1..=4095`) handed back by a lower layer (the file system).
#[derive(Clone, Copy, Debug, PartialEq, Eq, Structural)]
pub enum SysError {
    Ax(ErrorKind),
    Linux(i32),
}

pub type SysResult<T> = Result<T, SysError>;

/// The Linux error number of each kind, as `axerrno` maps it.
pub open spec fn kind_errno(k: ErrorKind) -> i32 {
    match k {
        ErrorKind::BadAddress => 14,
        ErrorKind::BadFileDescriptor => 9,
        ErrorKind::InvalidInput => 22,
        ErrorKind::NoSuchProcess => 3,
        ErrorKind::NotADirectory => 20,
        ErrorKind::NotFound => 2,
        ErrorKind::ResourceBusy => 16,
        ErrorKind::TooManyOpenFiles => 24,
        ErrorKind::Unsupported => 38,
    }
}

/// The Linux error number of an error.
pub open spec fn errno_spec(e: SysError) -> i32 {
    match e {
        SysError::Ax(k) => kind_errno(k),
        SysError::Linux(n) => n,
    }
}

/// The error number lies in `1..=4095`, the range Linux reserves for errors:
/// true of every kind, and required of a raw number.
pub open spec fn errno_in_range(e: SysError) -> bool {
    1 <= errno_spec(e) <= 4095
}

/// Converts the kind to `axerrno::AxErrorKind` and maps it with
/// `LinuxError::from` and `LinuxError::code`. The contract states the table of
/// that `From` impl in axerrno 0.2 for the kinds used here
/// (`Unsupported` maps to `ENOSYS` there).
#[verifier::external_body]
fn linux_code(kind: ErrorKind) -> (code: i32)
    ensures
        code == kind_errno(kind),
{
    let ax = match kind {
        ErrorKind::BadAddress => AxErrorKind::BadAddress,
        ErrorKind::BadFileDescriptor => AxErrorKind::BadFileDescriptor,
        ErrorKind::InvalidInput => AxErrorKind::InvalidInput,
        ErrorKind::NoSuchProcess => AxErrorKind::NoSuchProcess,
        ErrorKind::NotADirectory => AxErrorKind::NotADirectory,
        ErrorKind::NotFound => AxErrorKind::NotFound,
        ErrorKind::ResourceBusy => AxErrorKind::ResourceBusy,
        ErrorKind::TooManyOpenFiles => AxErrorKind::TooManyOpenFiles,
        ErrorKind::Unsupported => AxErrorKind::Unsupported,
    };
    LinuxError::from(ax).code()
}

/// The Linux error number that user space sees for `e`.
pub fn errno(e: SysError) -> (code: i32)
    ensures
        code == errno_spec(e),
{
    match e {
        SysError::Ax(k) => linux_code(k),
        SysError::Linux(n) => n,
    }
}

} // verus!
