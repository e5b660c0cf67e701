//! Flags for opening files and for access checks (x86-64 Linux values).
use vstd::prelude::*;

verus! {

/// Open for reading only.
pub const O_RDONLY: i32 = 0;

/// Open for writing only.
pub const O_WRONLY: i32 = 1;

/// Open for reading and writing.
pub const O_RDWR: i32 = 2;

/// Create the file if it does not exist.
pub const O_CREAT: i32 = 0o100;

/// Truncate the file to length zero.
pub const O_TRUNC: i32 = 0o1000;

/// Append on each write.
pub const O_APPEND: i32 = 0o2000;

/// Allow files whose sizes do not fit in 31 bits.
pub const O_LARGEFILE: i32 = 0o100000;

/// Close the descriptor on `exec`.
pub const O_CLOEXEC: i32 = 0o2000000;

/// The close-on-exec bit of the descriptor flags (`F_GETFD` / `F_SETFD`).
pub const FD_CLOEXEC: i32 = 1;

/// Refers to the current working directory where a directory descriptor is expected.
pub const AT_FDCWD: i32 = -100;

/// Do not follow a symbolic link at the end of the path.
pub const AT_SYMLINK_NOFOLLOW: i32 = 0x100;

/// An empty path refers to the directory descriptor itself.
pub const AT_EMPTY_PATH: i32 = 0x1000;

/// Test for existence.
pub const F_OK: i32 = 0;

/// Test for read permission.
pub const R_OK: i32 = 4;

/// Test for write permission.
pub const W_OK: i32 = 2;

/// Test for execute permission.
pub const X_OK: i32 = 1;

/// Permission bits `rw-r--r--`, the mode of newly created files by default.
pub const MODE_FILE: u32 = 0o644;

/// The flags and the creation mode with which a file is opened.
#[derive(Clone, Copy, Debug, PartialEq, Eq, Structural)]
pub struct Flags {
    /// The `O_*` flags.
    pub bits: i32,
    /// The permission bits of a file that the call creates.
    pub mode: u32,
}

/// The default flags: read only, close on exec, default file mode.
pub open spec fn default_flags() -> Flags {
    Flags { bits: O_RDONLY | O_CLOEXEC, mode: MODE_FILE }
}

impl Flags {
    /// Creates flags with the default values: read only and close on exec, with the
    /// default file mode.
    pub fn new() -> (f: Flags)
        ensures
            f == default_flags(),
    {
        Flags { bits: O_RDONLY | O_CLOEXEC, mode: MODE_FILE }
    }

    /// Creates flags from the `O_*` bits that the kernel reports, with the default mode.
    pub fn from_int(bits: i32) -> (f: Flags)
        ensures
            f.bits == bits,
            f.mode == MODE_FILE,
    {
        Flags { bits, mode: MODE_FILE }
    }

    /// The `O_*` bits.
    pub fn bits(&self) -> (b: i32)
        ensures
            b == self.bits,
    {
        self.bits
    }

    /// The creation mode.
    pub fn mode(&self) -> (m: u32)
        ensures
            m == self.mode,
    {
        self.mode
    }

    /// Sets the creation mode.
    pub fn set_mode(&mut self, mode: u32)
        ensures
            final(self).mode == mode,
            final(self).bits == old(self).bits,
    {
        self.mode = mode;
    }
}

/// The kinds of access that an access check asks for.
#[derive(Clone, Copy, Debug, PartialEq, Eq, Structural)]
pub struct AccessMode {
    /// Read permission.
    pub read: bool,
    /// Write permission.
    pub write: bool,
    /// Execute (or search) permission.
    pub execute: bool,
}

/// The `*_OK` bits of an access mode.
pub open spec fn access_bits(mode: AccessMode) -> int {
    (if mode.read { R_OK as int } else { 0 }) + (if mode.write { W_OK as int } else { 0 }) + (
    if mode.execute { X_OK as int } else { 0 })
}

/// Converts an access mode to the `*_OK` bits that the kernel takes.
pub fn access_mode_to_int(mode: AccessMode) -> (r: i32)
    ensures
        r == access_bits(mode),
        0 <= r <= 7,
{
    let mut r: i32 = F_OK;
    if mode.read {
        r = r + R_OK;
    }
    if mode.write {
        r = r + W_OK;
    }
    if mode.execute {
        r = r + X_OK;
    }
    r
}

/// The flag values are those of x86-64 Linux.
pub proof fn lemma_flag_values()
    ensures
        O_RDONLY == 0 && O_WRONLY == 1 && O_RDWR == 2 && O_CREAT == 0o100 && O_TRUNC == 0o1000
            && O_APPEND == 0o2000 && O_LARGEFILE == 0o100000 && O_CLOEXEC == 0o2000000,
        FD_CLOEXEC == 1 && AT_FDCWD == -100 && AT_SYMLINK_NOFOLLOW == 0x100 && AT_EMPTY_PATH
            == 0x1000,
        F_OK == 0 && R_OK == 4 && W_OK == 2 && X_OK == 1,
{
}

/// Each requested permission is checked, and only the requested ones: in the access bits,
/// bit 2 (4) is set exactly when read is asked, bit 1 (2) exactly when write is asked and
/// bit 0 (1) exactly when execute is asked, each independently of the others.
pub proof fn lemma_access_bits_per_permission(mode: AccessMode)
    ensures
        0 <= access_bits(mode) <= 7,
        (access_bits(mode) / 4 == 1) == mode.read,
        ((access_bits(mode) / 2) % 2 == 1) == mode.write,
        (access_bits(mode) % 2 == 1) == mode.execute,
        access_bits(mode) == 0 <==> !mode.read && !mode.write && !mode.execute,
{
}

/// The default flags open a file for reading only (access mode 0), close it on `exec`, and
/// create files with permissions `rw-r--r--`.
pub proof fn lemma_default_flags()
    ensures
        default_flags().bits & 3i32 == 0,
        default_flags().bits & 0o2000000i32 != 0,
        default_flags().bits == 0o2000000i32,
        default_flags().mode == 0o644,
{
    assert(0o2000000i32 & 3i32 == 0 && 0o2000000i32 & 0o2000000i32 != 0) by (bit_vector);
    assert(0i32 | 0o2000000i32 == 0o2000000i32) by (bit_vector);
}

} // verus!
