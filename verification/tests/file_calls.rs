use lrs::call::{Call, Step};
use lrs::errno::{Attempt, Errno, EACCES, EBADF, EINTR, ENODEV, ENOENT, ENXIO};
use lrs::file::{
    _info, access_result, can_access, close_on_exec_result, count_result, exists_result,
    file_exists, info_no_follow, status_flags_result, Advice, File, Seek, MAX_BUFFERS,
};
use lrs::flags::{
    AccessMode, Flags, AT_EMPTY_PATH, FD_CLOEXEC, AT_FDCWD, AT_SYMLINK_NOFOLLOW, F_OK, MODE_FILE, O_CLOEXEC,
    O_CREAT, O_LARGEFILE, O_RDONLY, O_WRONLY,
};

fn opened(fd: i32) -> File {
    match File::from_open_result(fd) {
        Attempt::Done(Ok(f)) => f,
        _ => panic!("open did not succeed"),
    }
}

#[test]
fn invalid_file_has_no_descriptor() {
    let mut f = File::invalid();
    assert_eq!(f.file_desc(), -1);
    assert!(matches!(f.close(), Step::Finish(Err(Errno(EBADF)))));
    assert_eq!(f.file_desc(), -1);
    assert!(matches!(f.close(), Step::Finish(Err(Errno(9)))));
}

#[test]
fn current_dir_is_at_fdcwd_and_not_closed() {
    let mut f = File::current_dir();
    assert_eq!(f.file_desc(), AT_FDCWD);
    assert_eq!(f.file_desc(), -100);
    assert!(matches!(f.close(), Step::Finish(Ok(()))));
    assert_eq!(f, File::current_dir());
}

#[test]
fn rel_open_asks_for_openat_with_large_files() {
    let dir = opened(7);
    let flags = Flags { bits: O_WRONLY | O_CREAT, mode: 0o600 };
    let req = dir.rel_open(b"notes.txt", flags);
    assert_eq!(req.call, Call::Openat { dir: 7, flags: O_WRONLY | O_CREAT | O_LARGEFILE, mode: 0o600 });
    assert_eq!(req.path.as_bytes(), b"notes.txt\0");
}

#[test]
fn open_read_is_open_with_default_flags() {
    let a = File::open_read(b"/etc/hostname");
    let b = File::open(b"/etc/hostname", Flags::new());
    assert_eq!(a.call, b.call);
    assert_eq!(a.path.as_bytes(), b.path.as_bytes());
    assert_eq!(
        a.call,
        Call::Openat { dir: AT_FDCWD, flags: O_RDONLY | O_CLOEXEC | O_LARGEFILE, mode: MODE_FILE }
    );
}

#[test]
fn rel_open_read_is_rel_open_with_default_flags() {
    let dir = opened(3);
    let a = dir.rel_open_read(b"x");
    let b = dir.rel_open(b"x", Flags::new());
    assert_eq!(a.call, b.call);
    assert_eq!(a.path.as_bytes(), b"x\0");
}

#[test]
fn open_result_success_owns_descriptor() {
    let mut f = opened(5);
    assert_eq!(f.file_desc(), 5);
    assert!(matches!(f.close(), Step::Issue(Call::Close { fd: 5 })));
    assert_eq!(f.file_desc(), -1);
}

#[test]
fn close_twice_issues_close_on_minus_one() {
    let mut f = opened(9);
    assert!(matches!(f.close(), Step::Issue(Call::Close { fd: 9 })));
    assert!(matches!(f.close(), Step::Issue(Call::Close { fd: -1 })));
}

#[test]
fn open_result_interrupted_is_retried() {
    assert!(matches!(File::from_open_result(-EINTR), Attempt::Again));
}

#[test]
fn open_result_enodev_becomes_enxio() {
    assert!(matches!(File::from_open_result(-ENODEV), Attempt::Done(Err(Errno(e))) if e == ENXIO));
}

#[test]
fn open_result_other_error_kept() {
    assert!(matches!(File::from_open_result(-ENOENT), Attempt::Done(Err(Errno(2)))));
    assert!(matches!(File::from_open_result(-ENXIO), Attempt::Done(Err(Errno(6)))));
}

#[test]
fn read_and_write_calls_name_descriptor() {
    let f = opened(4);
    assert_eq!(f.read(), Call::Read { fd: 4 });
    assert_eq!(f.write(), Call::Write { fd: 4 });
    assert_eq!(f.read_at(100), Call::Pread { fd: 4, offset: 100 });
    assert_eq!(f.write_at(-1), Call::Pwrite { fd: 4, offset: -1 });
    assert_eq!(f.scatter_read(3), Call::Readv { fd: 4 });
    assert_eq!(f.gather_write(0), Call::Writev { fd: 4 });
    assert_eq!(f.scatter_read_at(MAX_BUFFERS - 1, 8), Call::Preadv { fd: 4, offset: 8 });
    assert_eq!(f.gather_write_at(2, 16), Call::Pwritev { fd: 4, offset: 16 });
}

#[test]
fn count_results() {
    assert!(matches!(count_result(0), Attempt::Done(Ok(0))));
    assert!(matches!(count_result(4096), Attempt::Done(Ok(4096))));
    assert!(matches!(count_result(-4), Attempt::Again));
    assert!(matches!(count_result(-9), Attempt::Done(Err(Errno(9)))));
}

#[test]
fn count_result_truncates_error_number() {
    // The negated value is truncated to an int: 2^32 + 4 reads as EINTR.
    assert!(matches!(count_result(-(1i64 << 32) - 4), Attempt::Again));
}

#[test]
fn seek_calls() {
    let f = opened(6);
    assert_eq!(f.seek(Seek::Start(10)), Call::Lseek { fd: 6, offset: 10, whence: 0 });
    assert_eq!(f.seek(Seek::Cur(-3)), Call::Lseek { fd: 6, offset: -3, whence: 1 });
    assert_eq!(f.seek(Seek::End(0)), Call::Lseek { fd: 6, offset: 0, whence: 2 });
    assert_eq!(f.seek(Seek::Data(7)), Call::Lseek { fd: 6, offset: 7, whence: 3 });
    assert_eq!(f.seek(Seek::Hole(8)), Call::Lseek { fd: 6, offset: 8, whence: 4 });
}

#[test]
fn seek_whence_and_offset() {
    assert_eq!(Seek::Start(1).whence(), 0);
    assert_eq!(Seek::Hole(1).whence(), 4);
    assert_eq!(Seek::End(-42).offset(), -42);
    assert_eq!(Seek::Data(i64::MAX).offset(), i64::MAX);
}

#[test]
fn advice_codes() {
    assert_eq!(Advice::Normal.to_c_int(), 0);
    assert_eq!(Advice::Random.to_c_int(), 1);
    assert_eq!(Advice::Sequential.to_c_int(), 2);
    assert_eq!(Advice::Need.to_c_int(), 3);
    assert_eq!(Advice::DontNeed.to_c_int(), 4);
    assert_eq!(Advice::NoReuse.to_c_int(), 5);
}

#[test]
fn advise_range_length() {
    let f = opened(3);
    assert_eq!(
        f.advise(10..30, Advice::Sequential),
        Call::Fadvise { fd: 3, offset: 10, len: 20, advice: 2 }
    );
    assert_eq!(
        f.advise(4096..u64::MAX, Advice::DontNeed),
        Call::Fadvise { fd: 3, offset: 4096, len: 0, advice: 4 }
    );
    assert_eq!(f.advise(5..5, Advice::Normal), Call::Fadvise { fd: 3, offset: 5, len: 0, advice: 0 });
}

#[test]
fn duplicate_owns_new_descriptor() {
    let f = opened(3);
    assert_eq!(f.duplicate(), Call::DupCloexec { fd: 3, min: 0 });
    let mut d = File::from_dup_result(11).unwrap();
    assert_eq!(d.file_desc(), 11);
    assert!(matches!(d.close(), Step::Issue(Call::Close { fd: 11 })));
    assert_eq!(File::from_dup_result(-EBADF), Err(Errno(EBADF)));
}

#[test]
fn status_flags() {
    let f = opened(3);
    assert_eq!(f.get_status_flags(), Call::GetStatusFlags { fd: 3 });
    assert_eq!(status_flags_result(0o2002), Ok(Flags { bits: 0o2002, mode: MODE_FILE }));
    assert_eq!(status_flags_result(-EBADF), Err(Errno(EBADF)));
    assert_eq!(
        f.set_status_flags(Flags::from_int(0o4000)),
        Call::SetStatusFlags { fd: 3, flags: 0o4000 }
    );
}

#[test]
fn close_on_exec_read() {
    let f = opened(3);
    assert_eq!(f.is_close_on_exec(), Call::GetDescriptorFlags { fd: 3 });
    assert_eq!(close_on_exec_result(FD_CLOEXEC), Ok(true));
    assert_eq!(close_on_exec_result(1), Ok(true));
    assert_eq!(close_on_exec_result(0), Ok(false));
    assert_eq!(close_on_exec_result(O_CLOEXEC), Ok(false));
    assert_eq!(close_on_exec_result(6), Ok(false));
    assert_eq!(close_on_exec_result(-EBADF), Err(Errno(EBADF)));
}

#[test]
fn close_on_exec_set_round_trip() {
    let f = opened(3);
    assert_eq!(f.set_close_on_exec(true), Call::GetDescriptorFlags { fd: 3 });
    assert!(matches!(f.set_close_on_exec_step(true, 0), Step::Issue(Call::SetDescriptorFlags { fd: 3, flags: 1 })));
    assert!(matches!(f.set_close_on_exec_step(false, 1), Step::Issue(Call::SetDescriptorFlags { fd: 3, flags: 0 })));
    for word in [0, 1, 5, 6, O_CLOEXEC, O_CLOEXEC | 7] {
        for val in [false, true] {
            match f.set_close_on_exec_step(val, word) {
                Step::Issue(Call::SetDescriptorFlags { fd, flags }) => {
                    assert_eq!(fd, 3);
                    assert_eq!(close_on_exec_result(flags), Ok(val));
                    assert_eq!(flags & !FD_CLOEXEC, word & !FD_CLOEXEC);
                },
                _ => panic!("expected a write of the descriptor flags"),
            }
        }
    }
    assert!(matches!(f.set_close_on_exec_step(true, -EBADF), Step::Finish(Err(Errno(9)))));
}

#[test]
fn set_len_and_syncs() {
    let f = opened(12);
    assert_eq!(f.set_len(1 << 20), Call::Ftruncate { fd: 12, len: 1 << 20 });
    assert_eq!(f.sync(), Call::Fsync { fd: 12 });
    assert_eq!(f.data_sync(), Call::Fdatasync { fd: 12 });
    assert_eq!(f.sync_filesystem(), Call::Syncfs { fd: 12 });
    assert_eq!(f.fs_info(), Call::Fstatfs { fd: 12 });
}

#[test]
fn info_calls() {
    let f = opened(8);
    let own = f.info();
    assert_eq!(own.call, Call::Fstatat { dir: 8, flags: AT_EMPTY_PATH });
    assert_eq!(own.path.as_bytes(), b"\0");
    let follow = f.rel_info(b"a/b");
    assert_eq!(follow.call, Call::Fstatat { dir: 8, flags: 0 });
    assert_eq!(follow.path.as_bytes(), b"a/b\0");
    let link = f.rel_info_no_follow(b"link");
    assert_eq!(link.call, Call::Fstatat { dir: 8, flags: AT_SYMLINK_NOFOLLOW });
    assert_eq!(_info(b".").call, Call::Fstatat { dir: AT_FDCWD, flags: 0 });
    assert_eq!(info_no_follow(b".").call, Call::Fstatat { dir: AT_FDCWD, flags: AT_SYMLINK_NOFOLLOW });
}

#[test]
fn exists_calls_and_results() {
    let f = opened(8);
    let req = f.rel_exists(b"Makefile");
    assert_eq!(req.call, Call::Faccessat { dir: 8, amode: F_OK });
    assert_eq!(req.path.as_bytes(), b"Makefile\0");
    assert_eq!(file_exists(b"Makefile").call, Call::Faccessat { dir: AT_FDCWD, amode: F_OK });
    assert_eq!(exists_result(0), Ok(true));
    assert_eq!(exists_result(-ENOENT), Ok(false));
    assert_eq!(exists_result(-EACCES), Err(Errno(EACCES)));
    assert_eq!(exists_result(-EINTR), Err(Errno(EINTR)));
}

#[test]
fn can_access_calls_and_results() {
    let f = opened(8);
    let rw = AccessMode { read: true, write: true, execute: false };
    assert_eq!(f.rel_can_access(b"f", rw).call, Call::Faccessat { dir: 8, amode: 6 });
    let x = AccessMode { read: false, write: false, execute: true };
    assert_eq!(can_access(b"bin", x).call, Call::Faccessat { dir: AT_FDCWD, amode: 1 });
    assert_eq!(access_result(0), Ok(true));
    assert_eq!(access_result(-EACCES), Ok(false));
    assert_eq!(access_result(-ENOENT), Err(Errno(ENOENT)));
}

#[test]
fn exists_scenario() {
    // `exists("Makefile")` where the file is there, and `exists("doesnotexist")`.
    assert_eq!(file_exists(b"Makefile").path.as_bytes(), b"Makefile\0");
    assert_eq!(exists_result(0), Ok(true));
    assert_eq!(file_exists(b"doesnotexist").path.as_bytes(), b"doesnotexist\0");
    assert_eq!(exists_result(-ENOENT), Ok(false));
}

#[test]
fn invalid_file_calls_name_minus_one() {
    let f = File::invalid();
    assert_eq!(f.read(), Call::Read { fd: -1 });
    assert_eq!(f.seek(Seek::Start(0)), Call::Lseek { fd: -1, offset: 0, whence: 0 });
    assert_eq!(f.sync(), Call::Fsync { fd: -1 });
    assert_eq!(f.duplicate(), Call::DupCloexec { fd: -1, min: 0 });
}
