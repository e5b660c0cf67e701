//! The system calls that file operations issue, and the steps of an operation.
//!
//! The library decides which call an operation makes and with which arguments,
//! and how the value that the call returns is turned into a result. Issuing the
//! call is left to the caller, who hands the raw return value back.
use vstd::prelude::*;
use crate::cstring::CString;
use crate::errno::Errno;

verus! {

/// A system call with the arguments that the library chose for it. Calls that
/// transfer data name the descriptor and offset; the buffers are the caller's.
#[derive(Clone, Copy, Debug, PartialEq, Eq, Structural)]
pub enum Call {
    /// `openat(dir, path, flags, mode)`; the path travels beside the call.
    Openat { dir: i32, flags: i32, mode: u32 },
    /// `fstatat(dir, path, &stat, flags)`; the path travels beside the call.
    Fstatat { dir: i32, flags: i32 },
    /// `faccessat(dir, path, mode)`; the path travels beside the call.
    Faccessat { dir: i32, amode: i32 },
    /// `read(fd, buf)`.
    Read { fd: i32 },
    /// `write(fd, buf)`.
    Write { fd: i32 },
    /// `pread(fd, buf, offset)`.
    Pread { fd: i32, offset: i64 },
    /// `pwrite(fd, buf, offset)`.
    Pwrite { fd: i32, offset: i64 },
    /// `readv(fd, bufs)`.
    Readv { fd: i32 },
    /// `writev(fd, bufs)`.
    Writev { fd: i32 },
    /// `preadv(fd, bufs, offset)`.
    Preadv { fd: i32, offset: i64 },
    /// `pwritev(fd, bufs, offset)`.
    Pwritev { fd: i32, offset: i64 },
    /// `close(fd)`.
    Close { fd: i32 },
    /// `lseek(fd, offset, whence)`.
    Lseek { fd: i32, offset: i64, whence: i32 },
    /// `fcntl(fd, F_DUPFD_CLOEXEC, min)`.
    DupCloexec { fd: i32, min: i32 },
    /// `fcntl(fd, F_GETFL)`.
    GetStatusFlags { fd: i32 },
    /// `fcntl(fd, F_SETFL, flags)`.
    SetStatusFlags { fd: i32, flags: i32 },
    /// `fcntl(fd, F_GETFD)`: the descriptor flags, close-on-exec being `FD_CLOEXEC`.
    GetDescriptorFlags { fd: i32 },
    /// `fcntl(fd, F_SETFD, flags)`: sets the descriptor flags.
    SetDescriptorFlags { fd: i32, flags: i32 },
    /// `ftruncate(fd, len)`.
    Ftruncate { fd: i32, len: i64 },
    /// `fsync(fd)`.
    Fsync { fd: i32 },
    /// `fdatasync(fd)`.
    Fdatasync { fd: i32 },
    /// `syncfs(fd)`.
    Syncfs { fd: i32 },
    /// `fstatfs(fd, &buf)`.
    Fstatfs { fd: i32 },
    /// `fadvise64(fd, offset, len, advice)`.
    Fadvise { fd: i32, offset: i64, len: i64, advice: i32 },
}

/// A call that takes a path, and the path as a C string.
#[derive(Debug)]
pub struct PathCall {
    /// The call.
    pub call: Call,
    /// The path, NUL-terminated.
    pub path: CString,
}

/// The next step of an operation: a call to issue, or the operation's result.
#[derive(Debug)]
pub enum Step<T> {
    /// Issue this call and hand its return value back.
    Issue(Call),
    /// The operation is over with this result.
    Finish(Result<T, Errno>),
}

} // verus!
