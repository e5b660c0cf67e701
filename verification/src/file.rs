//! Files addressed by descriptor: what each operation asks of the kernel, and
//! how the kernel's answer becomes the operation's result.
use vstd::prelude::*;
use crate::call::{Call, PathCall, Step};
use crate::cstring::{CString, c_path, no_nul};
use crate::errno::{
    Attempt, Errno, EACCES, EBADF, ENODEV, ENOENT, ENXIO, errno_of_int, errno_of_long, interrupted_int,
    interrupted_long, retry_int, retry_long,
};
use crate::flags::{
    AccessMode, Flags, MODE_FILE, AT_EMPTY_PATH, AT_FDCWD, AT_SYMLINK_NOFOLLOW, F_OK, FD_CLOEXEC, O_LARGEFILE,
    access_bits, access_mode_to_int, default_flags,
};

verus! {

/// A seek operation.
#[derive(Copy, Clone, Debug, PartialEq, Eq, Structural)]
pub enum Seek {
    /// Seek from the start of the file.
    Start(i64),
    /// Seek from the current position in the file.
    Cur(i64),
    /// Seek from the end of the file.
    End(i64),
    /// Seek to the first non-hole byte at or after the specified offset.
    Data(i64),
    /// Seek to the first hole at or after the specified offset.
    Hole(i64),
}

/// The `whence` argument of `lseek` for a seek operation (`SEEK_SET` .. `SEEK_HOLE`).
pub open spec fn whence_of(pos: Seek) -> i32 {
    match pos {
        Seek::Start(_) => 0,
        Seek::Cur(_) => 1,
        Seek::End(_) => 2,
        Seek::Data(_) => 3,
        Seek::Hole(_) => 4,
    }
}

/// The offset that a seek operation carries.
pub open spec fn offset_of(pos: Seek) -> i64 {
    match pos {
        Seek::Start(v) => v,
        Seek::Cur(v) => v,
        Seek::End(v) => v,
        Seek::Data(v) => v,
        Seek::Hole(v) => v,
    }
}

impl Seek {
    /// The `whence` argument of `lseek`.
    pub fn whence(self) -> (w: i32)
        ensures
            w == whence_of(self),
    {
        match self {
            Seek::Start(..) => 0,
            Seek::Cur(..) => 1,
            Seek::End(..) => 2,
            Seek::Data(..) => 3,
            Seek::Hole(..) => 4,
        }
    }

    /// The `offset` argument of `lseek`.
    pub fn offset(self) -> (o: i64)
        ensures
            o == offset_of(self),
    {
        match self {
            Seek::Start(v) => v,
            Seek::Cur(v) => v,
            Seek::End(v) => v,
            Seek::Data(v) => v,
            Seek::Hole(v) => v,
        }
    }
}

/// Advice used to optimize file access.
#[derive(Copy, Clone, Debug, PartialEq, Eq, Structural)]
pub enum Advice {
    /// Default.
    Normal,
    /// Optimize for random access.
    Random,
    /// Optimize for sequential access.
    Sequential,
    /// The range will be accessed soon.
    Need,
    /// The range will not be accessed.
    DontNeed,
    /// The range will be accessed only once.
    NoReuse,
}

/// The `POSIX_FADV_*` value of an advice.
pub open spec fn advice_code(advice: Advice) -> i32 {
    match advice {
        Advice::Normal => 0,
        Advice::Random => 1,
        Advice::Sequential => 2,
        Advice::Need => 3,
        Advice::DontNeed => 4,
        Advice::NoReuse => 5,
    }
}

impl Advice {
    /// The `POSIX_FADV_*` value that the kernel takes.
    pub fn to_c_int(self) -> (c: i32)
        ensures
            c == advice_code(self),
    {
        match self {
            Advice::Normal => 0,
            Advice::Random => 1,
            Advice::Sequential => 2,
            Advice::Need => 3,
            Advice::DontNeed => 4,
            Advice::NoReuse => 5,
        }
    }
}

/// The call that opens a path relative to the directory `dir` with the given flags;
/// large files are always allowed.
pub open spec fn open_call(dir: i32, flags: Flags) -> Call {
    Call::Openat { dir, flags: flags.bits | O_LARGEFILE, mode: flags.mode }
}

/// The error of a failed open: the kernel's `ENODEV` is reported as `ENXIO`.
pub open spec fn open_error(e: Errno) -> Errno {
    if e.0 == ENODEV {
        Errno(ENXIO)
    } else {
        e
    }
}

/// The descriptor-flags word with the close-on-exec bit set to `val` and every other
/// bit as in `word`.
pub open spec fn with_close_on_exec(word: i32, val: bool) -> i32 {
    (word & !FD_CLOEXEC) | (if val {
        FD_CLOEXEC
    } else {
        0i32
    })
}

/// Whether a descriptor-flags word has the close-on-exec bit set.
pub open spec fn close_on_exec_bit(word: i32) -> bool {
    word & FD_CLOEXEC != 0
}

/// The arguments of `fadvise64` for a byte range: an end of `u64::MAX` stands for the
/// end of the file, which the kernel takes as a length of zero.
pub open spec fn advise_call(fd: i32, start: u64, end: u64, advice: Advice) -> Call {
    let len: u64 = if end == u64::MAX {
        0
    } else {
        (end - start) as u64
    };
    Call::Fadvise { fd, offset: start as i64, len: len as i64, advice: advice_code(advice) }
}

/// The largest number of buffers plus one that a scatter or gather call accepts.
pub const MAX_BUFFERS: usize = 2147483647;

/// An opened file in a file system.
#[derive(Debug, PartialEq, Eq, Structural)]
pub struct File {
    fd: i32,
    /// File has ownership of the file descriptor.
    owned: bool,
}

impl File {
    /// The file descriptor.
    pub closed spec fn desc(&self) -> i32 {
        self.fd
    }

    /// Whether the file owns its descriptor (and closes it).
    pub closed spec fn is_owned(&self) -> bool {
        self.owned
    }

    /// Creates a file on which every operation fails.
    pub fn invalid() -> (f: File)
        ensures
            f.desc() == -1,
            !f.is_owned(),
    {
        File { fd: -1, owned: false }
    }

    /// Creates a file that points to the current directory.
    pub fn current_dir() -> (f: File)
        ensures
            f.desc() == AT_FDCWD,
            !f.is_owned(),
    {
        File { fd: AT_FDCWD, owned: false }
    }

    /// Returns the file descriptor of this file.
    pub fn file_desc(&self) -> (fd: i32)
        ensures
            fd == self.desc(),
    {
        self.fd
    }

    /// Open the file at path `path` with the specified flags.
    ///
    /// If `path` is relative, the `self` must be a directory and the `path` will be
    /// interpreted relative to `self`. The call is repeated while it is interrupted; its
    /// result is interpreted by `File::from_open_result`.
    pub fn rel_open(&self, path: &[u8], flags: Flags) -> (c: PathCall)
        requires
            no_nul(path@),
        ensures
            c.call == open_call(self.desc(), flags),
            c.path@ == c_path(path@),
    {
        PathCall {
            call: Call::Openat { dir: self.fd, flags: flags.bits() | O_LARGEFILE, mode: flags.mode() },
            path: CString::from_path(path),
        }
    }

    /// The result of opening a file from the return value of `openat`.
    pub fn from_open_result(ret: i32) -> (a: Attempt<File>)
        requires
            ret != i32::MIN,
        ensures
            ret >= 0 ==> (a matches Attempt::Done(Ok(f)) && f.desc() == ret && f.is_owned()),
            interrupted_int(ret) ==> a is Again,
            ret < 0 && !interrupted_int(ret) ==> a == Attempt::Done(
                Err::<File, Errno>(open_error(errno_of_int(ret))),
            ),
    {
        match retry_int(ret) {
            Attempt::Again => Attempt::Again,
            Attempt::Done(Ok(fd)) => Attempt::Done(Ok(File { fd, owned: true })),
            Attempt::Done(Err(e)) => {
                if e.0 == ENODEV {
                    Attempt::Done(Err(Errno(ENXIO)))
                } else {
                    Attempt::Done(Err(e))
                }
            },
        }
    }

    /// Opens the file at path `path` in read mode.
    ///
    /// This is equivalent to `rel_open` with the default flags.
    pub fn rel_open_read(&self, path: &[u8]) -> (c: PathCall)
        requires
            no_nul(path@),
        ensures
            c.call == open_call(self.desc(), default_flags()),
            c.path@ == c_path(path@),
    {
        self.rel_open(path, Flags::new())
    }

    /// Opens the file at path `path` in read mode.
    ///
    /// This is equivalent to `File::open` with the default flags.
    pub fn open_read(path: &[u8]) -> (c: PathCall)
        requires
            no_nul(path@),
        ensures
            c.call == open_call(AT_FDCWD, default_flags()),
            c.path@ == c_path(path@),
    {
        File::current_dir().rel_open_read(path)
    }

    /// Open the file at path `path` with the specified flags, relative to the current
    /// directory.
    pub fn open(path: &[u8], flags: Flags) -> (c: PathCall)
        requires
            no_nul(path@),
        ensures
            c.call == open_call(AT_FDCWD, flags),
            c.path@ == c_path(path@),
    {
        File::current_dir().rel_open(path, flags)
    }

    /// Reads bytes from the current read position into the caller's buffer. The call is
    /// repeated while it is interrupted; its result, the number of bytes read (zero at the
    /// end of the file), is interpreted by `count_result`.
    pub fn read(&self) -> (c: Call)
        ensures
            c == (Call::Read { fd: self.desc() }),
    {
        Call::Read { fd: self.fd }
    }

    /// Writes bytes from the caller's buffer at the current position. The call is repeated
    /// while it is interrupted; its result, the number of bytes written, is interpreted by
    /// `count_result`.
    pub fn write(&self) -> (c: Call)
        ensures
            c == (Call::Write { fd: self.desc() }),
    {
        Call::Write { fd: self.fd }
    }

    /// Closes the file descriptor.
    ///
    /// A file that owns its descriptor forgets it (its descriptor becomes `-1`) and asks for
    /// `close`, whose return value `rv` interprets. A file that does not own its descriptor
    /// is left alone: closing the invalid file (descriptor `-1`) fails with `EBADF`, as every
    /// operation on it does; closing any other such file, the current directory for one,
    /// succeeds.
    pub fn close(&mut self) -> (s: Step<()>)
        ensures
            old(self).is_owned() ==> s == Step::<()>::Issue(Call::Close { fd: old(self).desc() })
                && final(self).desc() == -1 && final(self).is_owned(),
            !old(self).is_owned() && old(self).desc() == -1 ==> s == Step::Finish(
                Err::<(), Errno>(Errno(EBADF)),
            ) && *final(self) == *old(self),
            !old(self).is_owned() && old(self).desc() != -1 ==> s == Step::Finish(
                Ok::<(), Errno>(()),
            ) && *final(self) == *old(self),
    {
        if self.owned {
            let fd = self.fd;
            self.fd = -1;
            Step::Issue(Call::Close { fd })
        } else if self.fd == -1 {
            Step::Finish(Err(Errno(EBADF)))
        } else {
            Step::Finish(Ok(()))
        }
    }

    /// Returns information about the file: `fstatat` on the descriptor itself with an empty
    /// path. Its return value is interpreted by `rv`.
    pub fn info(&self) -> (c: PathCall)
        ensures
            c.call == (Call::Fstatat { dir: self.desc(), flags: AT_EMPTY_PATH }),
            c.path@ == c_path(Seq::<u8>::empty()),
    {
        let path = CString::empty();
        proof {
            assert(path@ =~= c_path(Seq::<u8>::empty()));
        }
        PathCall { call: Call::Fstatat { dir: self.fd, flags: AT_EMPTY_PATH }, path }
    }

    /// Returns information about the file specified by `path`.
    ///
    /// If `path` is a symlink, then this is equivalent to returning information about the
    /// destination of the symlink. If `path` is relative, then `self` must be a directory
    /// and the path will be interpreted relative to `self`.
    pub fn rel_info(&self, path: &[u8]) -> (c: PathCall)
        requires
            no_nul(path@),
        ensures
            c.call == (Call::Fstatat { dir: self.desc(), flags: 0 }),
            c.path@ == c_path(path@),
    {
        PathCall { call: Call::Fstatat { dir: self.fd, flags: 0 }, path: CString::from_path(path) }
    }

    /// Returns information about the file specified by `path`, even if `path` is a symlink.
    /// If `path` is relative, then `self` must be a directory and the path will be
    /// interpreted relative to `self`.
    pub fn rel_info_no_follow(&self, path: &[u8]) -> (c: PathCall)
        requires
            no_nul(path@),
        ensures
            c.call == (Call::Fstatat { dir: self.desc(), flags: AT_SYMLINK_NOFOLLOW }),
            c.path@ == c_path(path@),
    {
        PathCall {
            call: Call::Fstatat { dir: self.fd, flags: AT_SYMLINK_NOFOLLOW },
            path: CString::from_path(path),
        }
    }

    /// Performs the requested seek operation. The return value of the call, the new
    /// position in the file, is interpreted by `rv_long`.
    pub fn seek(&self, pos: Seek) -> (c: Call)
        ensures
            c == (Call::Lseek { fd: self.desc(), offset: offset_of(pos), whence: whence_of(pos) }),
    {
        Call::Lseek { fd: self.fd, offset: pos.offset(), whence: pos.whence() }
    }

    /// Creates a new file referring to the same file description; the `close on exec`
    /// flag will be set on the new file. The result is interpreted by
    /// `File::from_dup_result`.
    pub fn duplicate(&self) -> (c: Call)
        ensures
            c == (Call::DupCloexec { fd: self.desc(), min: 0 }),
    {
        Call::DupCloexec { fd: self.fd, min: 0 }
    }

    /// The new file from the return value of `F_DUPFD_CLOEXEC`; it owns the new descriptor.
    pub fn from_dup_result(ret: i32) -> (r: Result<File, Errno>)
        requires
            ret != i32::MIN,
        ensures
            ret >= 0 ==> (r matches Ok(f) && f.desc() == ret && f.is_owned()),
            ret < 0 ==> r == Err::<File, Errno>(errno_of_int(ret)),
    {
        if ret < 0 {
            Err(Errno(-ret))
        } else {
            Ok(File { fd: ret, owned: true })
        }
    }

    /// Retrieves the file description flags: the access mode flags and the file status
    /// flags. The result is interpreted by `status_flags_result`.
    pub fn get_status_flags(&self) -> (c: Call)
        ensures
            c == (Call::GetStatusFlags { fd: self.desc() }),
    {
        Call::GetStatusFlags { fd: self.fd }
    }

    /// Sets the file description flags; only the file status flags can be modified. The
    /// result is interpreted by `rv`.
    pub fn set_status_flags(&self, flags: Flags) -> (c: Call)
        ensures
            c == (Call::SetStatusFlags { fd: self.desc(), flags: flags.bits }),
    {
        Call::SetStatusFlags { fd: self.fd, flags: flags.bits() }
    }

    /// Returns whether the file has the `close on exec` flag set. The result is interpreted
    /// by `close_on_exec_result`.
    pub fn is_close_on_exec(&self) -> (c: Call)
        ensures
            c == (Call::GetDescriptorFlags { fd: self.desc() }),
    {
        Call::GetDescriptorFlags { fd: self.fd }
    }

    /// Modifies the `close on exec` flag of the file. The descriptor flags are read first,
    /// whatever `val` is; `set_close_on_exec_step` then writes them back with the flag set
    /// to `val`.
    pub fn set_close_on_exec(&self, val: bool) -> (c: Call)
        ensures
            c == (Call::GetDescriptorFlags { fd: self.desc() }),
    {
        Call::GetDescriptorFlags { fd: self.fd }
    }

    /// The step of `set_close_on_exec` after the descriptor flags were read: on success,
    /// write them back with the close-on-exec bit set to `val` (the result of that write is
    /// interpreted by `rv`); on failure, the operation fails with the reported error.
    pub fn set_close_on_exec_step(&self, val: bool, ret: i32) -> (s: Step<()>)
        requires
            ret != i32::MIN,
        ensures
            ret >= 0 ==> s == Step::<()>::Issue(
                Call::SetDescriptorFlags { fd: self.desc(), flags: with_close_on_exec(ret, val) },
            ),
            ret < 0 ==> s == Step::Finish(Err::<(), Errno>(errno_of_int(ret))),
    {
        if ret >= 0 {
            let bit: i32 = if val {
                FD_CLOEXEC
            } else {
                0
            };
            Step::Issue(Call::SetDescriptorFlags { fd: self.fd, flags: (ret & !FD_CLOEXEC) | bit })
        } else {
            Step::Finish(Err(Errno(-ret)))
        }
    }

    /// Reads bytes from the offset into the caller's buffer. The return value and errors are
    /// the same as for `read` and `seek`.
    pub fn read_at(&self, off: i64) -> (c: Call)
        ensures
            c == (Call::Pread { fd: self.desc(), offset: off }),
    {
        Call::Pread { fd: self.fd, offset: off }
    }

    /// Writes bytes to the offset from the caller's buffer. The return value and errors are
    /// the same as for `write` and `seek`.
    pub fn write_at(&self, off: i64) -> (c: Call)
        ensures
            c == (Call::Pwrite { fd: self.desc(), offset: off }),
    {
        Call::Pwrite { fd: self.fd, offset: off }
    }

    /// Reads bytes from the current read position into `buffers` buffers; the result, the
    /// total number of bytes read, is interpreted by `count_result`.
    pub fn scatter_read(&self, buffers: usize) -> (c: Call)
        requires
            buffers < MAX_BUFFERS,
        ensures
            c == (Call::Readv { fd: self.desc() }),
    {
        Call::Readv { fd: self.fd }
    }

    /// Writes bytes to the current write position from `buffers` buffers; the result, the
    /// total number of bytes written, is interpreted by `count_result`.
    pub fn gather_write(&self, buffers: usize) -> (c: Call)
        requires
            buffers < MAX_BUFFERS,
        ensures
            c == (Call::Writev { fd: self.desc() }),
    {
        Call::Writev { fd: self.fd }
    }

    /// Reads bytes from the offset into `buffers` buffers; the result, the total number of
    /// bytes read, is interpreted by `count_result`.
    pub fn scatter_read_at(&self, buffers: usize, off: i64) -> (c: Call)
        requires
            buffers < MAX_BUFFERS,
        ensures
            c == (Call::Preadv { fd: self.desc(), offset: off }),
    {
        Call::Preadv { fd: self.fd, offset: off }
    }

    /// Writes bytes to the offset from `buffers` buffers; the result, the total number of
    /// bytes written, is interpreted by `count_result`.
    pub fn gather_write_at(&self, buffers: usize, off: i64) -> (c: Call)
        requires
            buffers < MAX_BUFFERS,
        ensures
            c == (Call::Pwritev { fd: self.desc(), offset: off }),
    {
        Call::Pwritev { fd: self.fd, offset: off }
    }

    /// Changes the length of the file to the specified length; a larger length creates a
    /// hole. The call is repeated while it is interrupted (see `retry_unit`).
    pub fn set_len(&self, len: i64) -> (c: Call)
        ensures
            c == (Call::Ftruncate { fd: self.desc(), len }),
    {
        Call::Ftruncate { fd: self.fd, len }
    }

    /// Flushes all data and metadata to the disk. The result is interpreted by `rv`.
    pub fn sync(&self) -> (c: Call)
        ensures
            c == (Call::Fsync { fd: self.desc() }),
    {
        Call::Fsync { fd: self.fd }
    }

    /// Flushes enough data to the disk that the content of the file can be read again. The
    /// result is interpreted by `rv`.
    pub fn data_sync(&self) -> (c: Call)
        ensures
            c == (Call::Fdatasync { fd: self.desc() }),
    {
        Call::Fdatasync { fd: self.fd }
    }

    /// Writes all data and metadata of the filesystem containing this file to the disk. The
    /// result is interpreted by `rv`.
    pub fn sync_filesystem(&self) -> (c: Call)
        ensures
            c == (Call::Syncfs { fd: self.desc() }),
    {
        Call::Syncfs { fd: self.fd }
    }

    /// Advise the kernel that the byte range `range` will have a certain usage pattern; an
    /// end of `u64::MAX` means up to the end of the file. The result is interpreted by `rv`.
    pub fn advise(&self, range: core::ops::Range<u64>, advice: Advice) -> (c: Call)
        requires
            range.end == u64::MAX || range.start <= range.end,
        ensures
            c == advise_call(self.desc(), range.start, range.end, advice),
    {
        let len: u64 = if range.end == u64::MAX {
            0
        } else {
            range.end - range.start
        };
        Call::Fadvise {
            fd: self.fd,
            offset: range.start as i64,
            len: len as i64,
            advice: advice.to_c_int(),
        }
    }

    /// Returns information about the file system of this file. The call is repeated while
    /// it is interrupted (see `retry_unit`).
    pub fn fs_info(&self) -> (c: Call)
        ensures
            c == (Call::Fstatfs { fd: self.desc() }),
    {
        Call::Fstatfs { fd: self.fd }
    }

    /// Returns whether the specified path points to an existing file. If `path` is relative
    /// then `self` must be a directory and the path will be interpreted relative to `self`.
    /// The result is interpreted by `exists_result`.
    pub fn rel_exists(&self, path: &[u8]) -> (c: PathCall)
        requires
            no_nul(path@),
        ensures
            c.call == (Call::Faccessat { dir: self.desc(), amode: F_OK }),
            c.path@ == c_path(path@),
    {
        PathCall { call: Call::Faccessat { dir: self.fd, amode: F_OK }, path: CString::from_path(path) }
    }

    /// Returns whether the specified path can be accessed in the given mode. If `path` is
    /// relative then `self` must be a directory and the path will be interpreted relative to
    /// `self`. The result is interpreted by `access_result`.
    pub fn rel_can_access(&self, path: &[u8], mode: AccessMode) -> (c: PathCall)
        requires
            no_nul(path@),
        ensures
            c.call == (Call::Faccessat { dir: self.desc(), amode: access_bits(mode) as i32 }),
            c.path@ == c_path(path@),
    {
        PathCall {
            call: Call::Faccessat { dir: self.fd, amode: access_mode_to_int(mode) },
            path: CString::from_path(path),
        }
    }
}

/// The number of bytes that a read or write call transferred, from its return value.
pub fn count_result(ret: i64) -> (a: Attempt<usize>)
    requires
        ret != i64::MIN,
    ensures
        ret >= 0 ==> a == Attempt::Done(Ok::<usize, Errno>(ret as usize)),
        interrupted_long(ret) ==> a == Attempt::<usize>::Again,
        ret < 0 && !interrupted_long(ret) ==> a == Attempt::Done(
            Err::<usize, Errno>(errno_of_long(ret)),
        ),
{
    match retry_long(ret) {
        Attempt::Again => Attempt::Again,
        Attempt::Done(Ok(n)) => Attempt::Done(Ok(n as usize)),
        Attempt::Done(Err(e)) => Attempt::Done(Err(e)),
    }
}

/// The file description flags from the return value of `F_GETFL`.
pub fn status_flags_result(ret: i32) -> (r: Result<Flags, Errno>)
    requires
        ret != i32::MIN,
    ensures
        ret >= 0 ==> (r matches Ok(f) && f.bits == ret && f.mode == MODE_FILE),
        ret < 0 ==> r == Err::<Flags, Errno>(errno_of_int(ret)),
{
    if ret < 0 {
        Err(Errno(-ret))
    } else {
        Ok(Flags::from_int(ret))
    }
}

/// Whether the close-on-exec flag is set, from the return value of `F_GETFD`.
pub fn close_on_exec_result(ret: i32) -> (r: Result<bool, Errno>)
    requires
        ret != i32::MIN,
    ensures
        ret >= 0 ==> r == Ok::<bool, Errno>(close_on_exec_bit(ret)),
        ret < 0 ==> r == Err::<bool, Errno>(errno_of_int(ret)),
{
    if ret < 0 {
        Err(Errno(-ret))
    } else {
        Ok(ret & FD_CLOEXEC != 0)
    }
}

/// Whether a path exists, from the return value of `faccessat(.., F_OK)`: a missing file
/// is an answer, not an error.
pub fn exists_result(res: i32) -> (r: Result<bool, Errno>)
    requires
        res != i32::MIN,
    ensures
        res >= 0 ==> r == Ok::<bool, Errno>(true),
        res < 0 && errno_of_int(res).0 == ENOENT ==> r == Ok::<bool, Errno>(false),
        res < 0 && errno_of_int(res).0 != ENOENT ==> r == Err::<bool, Errno>(errno_of_int(res)),
{
    if res >= 0 {
        Ok(true)
    } else {
        let err = Errno(-res);
        if err.0 == ENOENT {
            Ok(false)
        } else {
            Err(err)
        }
    }
}

/// Whether a path can be accessed, from the return value of `faccessat`: a denied access
/// is an answer, not an error.
pub fn access_result(res: i32) -> (r: Result<bool, Errno>)
    requires
        res != i32::MIN,
    ensures
        res >= 0 ==> r == Ok::<bool, Errno>(true),
        res < 0 && errno_of_int(res).0 == EACCES ==> r == Ok::<bool, Errno>(false),
        res < 0 && errno_of_int(res).0 != EACCES ==> r == Err::<bool, Errno>(errno_of_int(res)),
{
    if res >= 0 {
        Ok(true)
    } else {
        let err = Errno(-res);
        if err.0 == EACCES {
            Ok(false)
        } else {
            Err(err)
        }
    }
}

/// Returns information about the file specified by `path`, following a symlink at its end.
/// Relative paths are interpreted relative to the current working directory.
pub fn _info(path: &[u8]) -> (c: PathCall)
    requires
        no_nul(path@),
    ensures
        c.call == (Call::Fstatat { dir: AT_FDCWD, flags: 0 }),
        c.path@ == c_path(path@),
{
    File::current_dir().rel_info(path)
}

/// Returns information about the file specified by `path`, even if `path` is a symlink.
/// Relative paths are interpreted relative to the current working directory.
pub fn info_no_follow(path: &[u8]) -> (c: PathCall)
    requires
        no_nul(path@),
    ensures
        c.call == (Call::Fstatat { dir: AT_FDCWD, flags: AT_SYMLINK_NOFOLLOW }),
        c.path@ == c_path(path@),
{
    File::current_dir().rel_info_no_follow(path)
}

/// Returns whether the specified path points to an existing file. Relative paths are
/// interpreted relative to the current working directory.
pub fn file_exists(path: &[u8]) -> (c: PathCall)
    requires
        no_nul(path@),
    ensures
        c.call == (Call::Faccessat { dir: AT_FDCWD, amode: F_OK }),
        c.path@ == c_path(path@),
{
    File::current_dir().rel_exists(path)
}

/// Returns whether the specified path can be accessed in the given mode. Relative paths
/// are interpreted relative to the current working directory.
pub fn can_access(path: &[u8], mode: AccessMode) -> (c: PathCall)
    requires
        no_nul(path@),
    ensures
        c.call == (Call::Faccessat { dir: AT_FDCWD, amode: access_bits(mode) as i32 }),
        c.path@ == c_path(path@),
{
    File::current_dir().rel_can_access(path, mode)
}

/// Setting the close-on-exec flag and reading it back gives the value that was set, and
/// the write leaves every other descriptor flag as it was.
pub proof fn lemma_close_on_exec_round_trip(word: i32, val: bool)
    ensures
        close_on_exec_bit(with_close_on_exec(word, val)) == val,
        with_close_on_exec(word, val) & !FD_CLOEXEC == word & !FD_CLOEXEC,
        close_on_exec_bit(word) == (word & 1i32 != 0),
        with_close_on_exec(word, val) == (if val {
            word | 1i32
        } else {
            word & !1i32
        }),
{
    let c = FD_CLOEXEC;
    assert(c == 1i32);
    if val {
        assert((((word & !c) | c) & c != 0) && (((word & !c) | c) & !c == word & !c) && ((word
            & !c) | c) == word | 1i32) by (bit_vector)
            requires
                c == 1i32,
        ;
    } else {
        assert(!(((word & !c) | 0i32) & c != 0) && (((word & !c) | 0i32) & !c == word & !c) && ((
        word & !c) | 0i32) == word & !1i32) by (bit_vector)
            requires
                c == 1i32,
        ;
    }
}

/// A failed open never reports `ENODEV`: that error becomes `ENXIO`, and every other
/// error is reported as the kernel gave it.
pub proof fn lemma_open_never_reports_enodev(e: Errno)
    ensures
        open_error(e).0 != ENODEV,
        e.0 != ENODEV ==> open_error(e) == e,
        e.0 == ENODEV ==> open_error(e).0 == ENXIO,
{
}

/// The `lseek` arguments of a seek operation determine the operation.
pub proof fn lemma_seek_arguments_determine_seek(a: Seek, b: Seek)
    ensures
        whence_of(a) == whence_of(b) && offset_of(a) == offset_of(b) ==> a == b,
        0 <= whence_of(a) <= 4,
{
}

/// Distinct advice has distinct `POSIX_FADV_*` values, each from 0 to 5.
pub proof fn lemma_advice_codes_distinct(a: Advice, b: Advice)
    ensures
        advice_code(a) == advice_code(b) ==> a == b,
        0 <= advice_code(a) <= 5,
{
}

/// An open asks for exactly the caller's flag bits with large files allowed: every bit of
/// `flags.bits` is kept, `O_LARGEFILE` (0o100000) is set, no other bit is added, and the
/// directory and the creation mode are the caller's.
pub proof fn lemma_open_keeps_caller_flags(dir: i32, flags: Flags)
    ensures
        open_call(dir, flags) matches Call::Openat { dir: d, flags: f, mode: m } && d == dir && m
            == flags.mode && f & flags.bits == flags.bits && f & 0o100000i32 == 0o100000i32 && f
            & !0o100000i32 == flags.bits & !0o100000i32,
{
    let b = flags.bits;
    let f = b | O_LARGEFILE;
    assert(f & b == b && f & 0o100000i32 == 0o100000i32 && f & !0o100000i32 == b & !0o100000i32)
        by (bit_vector)
        requires
            f == b | 0o100000i32,
    ;
}

/// The `whence` of a seek depends on its kind alone, never on its offset (`SEEK_SET` 0,
/// `SEEK_CUR` 1, `SEEK_END` 2, `SEEK_DATA` 3, `SEEK_HOLE` 4), and its offset is the one it
/// carries.
pub proof fn lemma_seek_whence_by_kind(v: i64)
    ensures
        whence_of(Seek::Start(v)) == 0 && offset_of(Seek::Start(v)) == v,
        whence_of(Seek::Cur(v)) == 1 && offset_of(Seek::Cur(v)) == v,
        whence_of(Seek::End(v)) == 2 && offset_of(Seek::End(v)) == v,
        whence_of(Seek::Data(v)) == 3 && offset_of(Seek::Data(v)) == v,
        whence_of(Seek::Hole(v)) == 4 && offset_of(Seek::Hole(v)) == v,
{
}

/// Each advice has its `POSIX_FADV_*` value: `NORMAL` 0, `RANDOM` 1, `SEQUENTIAL` 2,
/// `WILLNEED` 3, `DONTNEED` 4, `NOREUSE` 5.
pub proof fn lemma_advice_posix_values()
    ensures
        advice_code(Advice::Normal) == 0,
        advice_code(Advice::Random) == 1,
        advice_code(Advice::Sequential) == 2,
        advice_code(Advice::Need) == 3,
        advice_code(Advice::DontNeed) == 4,
        advice_code(Advice::NoReuse) == 5,
{
}

/// The `fadvise64` call of `advise` names the file, carries the advice's own code, starts
/// at the range's start and covers the range: its length is the range's length, or zero
/// (to the end of the file) for an end of `u64::MAX`.
pub proof fn lemma_advise_covers_range(fd: i32, start: u64, end: u64, advice: Advice)
    requires
        end == u64::MAX || start <= end,
    ensures
        advise_call(fd, start, end, advice) matches Call::Fadvise {
            fd: f,
            offset: o,
            len: l,
            advice: c,
        } && f == fd && c == advice_code(advice) && (start <= i64::MAX ==> o == start) && (end
            == u64::MAX ==> l == 0) && (end != u64::MAX && end - start <= i64::MAX ==> l == end
            - start),
{
}

/// A scatter or gather call takes fewer than `u32::MAX / 2` buffers.
pub proof fn lemma_max_buffers()
    ensures
        MAX_BUFFERS == 2147483647,
        MAX_BUFFERS == u32::MAX / 2,
{
}

} // verus!
