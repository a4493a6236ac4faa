//! The errors of a replacement, and the numbers that stand for them.

use vstd::prelude::*;

verus! {

/// Why a replacement did not happen.
#[derive(Clone, Copy, Debug, PartialEq, Eq, Structural)]
pub enum ExecError {
    /// The file, or the interpreter it names, could not be opened.
    NoSuchFile,
    /// The caller's access class lacks the execute bit.
    PermissionDenied,
    /// The file cannot be run: its first bytes could not be read, its
    /// interpreter line holds a NUL, its interpreter is a script itself, or the
    /// loader's interpreter path is no C string.
    FormatError,
    /// Reading the interpreter line or rewinding the file failed.
    Io,
    /// A system call failed with this error number, which is passed on unchanged.
    Os(i32),
}

/// Reads the constant `syscall::error::EPERM`, the error number for "operation not permitted".
/// That it is 1 is taken from the crate's source and not proved.
#[verifier::external_body]
fn eperm() -> (r: i32)
    ensures
        r == 1,
{
    syscall::error::EPERM
}

/// Reads the constant `syscall::error::ENOENT`, the error number for "no such file or directory".
/// That it is 2 is taken from the crate's source and not proved.
#[verifier::external_body]
fn enoent() -> (r: i32)
    ensures
        r == 2,
{
    syscall::error::ENOENT
}

/// Reads the constant `syscall::error::EIO`, the error number for "I/O error".
/// That it is 5 is taken from the crate's source and not proved.
#[verifier::external_body]
fn eio() -> (r: i32)
    ensures
        r == 5,
{
    syscall::error::EIO
}

/// Reads the constant `syscall::error::ENOEXEC`, the error number for "exec format error".
/// That it is 8 is taken from the crate's source and not proved.
#[verifier::external_body]
fn enoexec() -> (r: i32)
    ensures
        r == 8,
{
    syscall::error::ENOEXEC
}

impl ExecError {
    /// The error number that stands for this error.
    pub open spec fn spec_errno(self) -> i32 {
        match self {
            ExecError::NoSuchFile => 2,
            ExecError::PermissionDenied => 1,
            ExecError::FormatError => 8,
            ExecError::Io => 5,
            ExecError::Os(errno) => errno,
        }
    }

    /// The error number to report for this error.
    pub fn errno(&self) -> (r: i32)
        ensures
            r == self.spec_errno(),
    {
        match self {
            ExecError::NoSuchFile => enoent(),
            ExecError::PermissionDenied => eperm(),
            ExecError::FormatError => enoexec(),
            ExecError::Io => eio(),
            ExecError::Os(errno) => *errno,
        }
    }
}

} // verus!
