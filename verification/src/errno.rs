//! Error numbers and the decoding of raw system-call return values.
//!
//! A raw call returns a non-negative value on success and the negated error
//! number on failure.
use vstd::prelude::*;

verus! {

/// The file does not exist.
pub const ENOENT: i32 = 2;

/// A blocking call was interrupted by a signal.
pub const EINTR: i32 = 4;

/// No such device or address.
pub const ENXIO: i32 = 6;

/// The descriptor is not a valid open file descriptor.
pub const EBADF: i32 = 9;

/// Permission denied.
pub const EACCES: i32 = 13;

/// No such device (the kernel reports this from `openat` where `ENXIO` is meant).
pub const ENODEV: i32 = 19;

/// An error number reported by the kernel.
#[derive(Clone, Copy, Debug, PartialEq, Eq, Structural)]
pub struct Errno(pub i32);

/// The error number carried by a negative return value of a call that returns an `int`.
pub open spec fn errno_of_int(ret: i32) -> Errno {
    Errno((-ret) as i32)
}

/// The error number carried by a negative return value of a call that returns a `long`
/// (the negated value is truncated to an `int`).
pub open spec fn errno_of_long(ret: i64) -> Errno {
    Errno((-ret) as i32)
}

/// Whether an `int` return value reports an interrupted call.
pub open spec fn interrupted_int(ret: i32) -> bool {
    ret < 0 && errno_of_int(ret).0 == EINTR
}

/// Whether a `long` return value reports an interrupted call.
pub open spec fn interrupted_long(ret: i64) -> bool {
    ret < 0 && errno_of_long(ret).0 == EINTR
}

/// What to do after a call that is repeated while it is interrupted.
#[derive(Debug)]
pub enum Attempt<T> {
    /// The call was interrupted by a signal: issue it again.
    Again,
    /// The call completed with this result.
    Done(Result<T, Errno>),
}

/// Interprets the return value of a call that reports only success or failure.
pub fn rv(ret: i32) -> (r: Result<(), Errno>)
    requires
        ret != i32::MIN,
    ensures
        ret >= 0 ==> r == Ok::<(), Errno>(()),
        ret < 0 ==> r == Err::<(), Errno>(errno_of_int(ret)),
{
    if ret < 0 {
        Err(Errno(-ret))
    } else {
        Ok(())
    }
}

/// Interprets the return value of a call that returns an `int` on success.
pub fn rv_int(ret: i32) -> (r: Result<i32, Errno>)
    requires
        ret != i32::MIN,
    ensures
        ret >= 0 ==> r == Ok::<i32, Errno>(ret),
        ret < 0 ==> r == Err::<i32, Errno>(errno_of_int(ret)),
{
    if ret < 0 {
        Err(Errno(-ret))
    } else {
        Ok(ret)
    }
}

/// Interprets the return value of a call that returns a `long` on success.
pub fn rv_long(ret: i64) -> (r: Result<i64, Errno>)
    requires
        ret != i64::MIN,
    ensures
        ret >= 0 ==> r == Ok::<i64, Errno>(ret),
        ret < 0 ==> r == Err::<i64, Errno>(errno_of_long(ret)),
{
    if ret < 0 {
        Err(Errno((-ret) as i32))
    } else {
        Ok(ret)
    }
}

/// Interprets the return value of an `int` call that is repeated while it is interrupted.
pub fn retry_int(ret: i32) -> (a: Attempt<i32>)
    requires
        ret != i32::MIN,
    ensures
        ret >= 0 ==> a == Attempt::Done(Ok::<i32, Errno>(ret)),
        interrupted_int(ret) ==> a == Attempt::<i32>::Again,
        ret < 0 && !interrupted_int(ret) ==> a == Attempt::Done(Err::<i32, Errno>(errno_of_int(ret))),
{
    if ret < 0 {
        let err = Errno(-ret);
        if err.0 == EINTR {
            Attempt::Again
        } else {
            Attempt::Done(Err(err))
        }
    } else {
        Attempt::Done(Ok(ret))
    }
}

/// Interprets the return value of a `long` call that is repeated while it is interrupted.
pub fn retry_long(ret: i64) -> (a: Attempt<i64>)
    requires
        ret != i64::MIN,
    ensures
        ret >= 0 ==> a == Attempt::Done(Ok::<i64, Errno>(ret)),
        interrupted_long(ret) ==> a == Attempt::<i64>::Again,
        ret < 0 && !interrupted_long(ret) ==> a == Attempt::Done(Err::<i64, Errno>(errno_of_long(ret))),
{
    if ret < 0 {
        let err = Errno((-ret) as i32);
        if err.0 == EINTR {
            Attempt::Again
        } else {
            Attempt::Done(Err(err))
        }
    } else {
        Attempt::Done(Ok(ret))
    }
}

/// Interprets the return value of a call that reports only success or failure and is
/// repeated while it is interrupted.
pub fn retry_unit(ret: i32) -> (a: Attempt<()>)
    requires
        ret != i32::MIN,
    ensures
        ret >= 0 ==> a == Attempt::Done(Ok::<(), Errno>(())),
        interrupted_int(ret) ==> a == Attempt::<()>::Again,
        ret < 0 && !interrupted_int(ret) ==> a == Attempt::Done(Err::<(), Errno>(errno_of_int(ret))),
{
    match retry_int(ret) {
        Attempt::Again => Attempt::Again,
        Attempt::Done(Ok(_)) => Attempt::Done(Ok(())),
        Attempt::Done(Err(e)) => Attempt::Done(Err(e)),
    }
}

/// An error return of an `int` call always carries a positive error number.
pub proof fn lemma_error_number_positive(ret: i32)
    requires
        ret < 0,
        ret != i32::MIN,
    ensures
        errno_of_int(ret).0 > 0,
        errno_of_int(ret).0 == -ret,
{
}

/// A `long` call's error return in the kernel's range `-4095..=-1` carries its negation as
/// the error number.
pub proof fn lemma_long_error_number(ret: i64)
    requires
        -4096 < ret < 0,
    ensures
        errno_of_long(ret).0 == -ret,
        errno_of_long(ret).0 > 0,
{
}

/// The error numbers are Linux's: `ENOENT` 2, `EINTR` 4, `ENXIO` 6, `EBADF` 9, `EACCES` 13,
/// `ENODEV` 19.
pub proof fn lemma_kernel_error_numbers()
    ensures
        ENOENT == 2 && EINTR == 4 && ENXIO == 6 && EBADF == 9 && EACCES == 13 && ENODEV == 19,
{
}

/// Only an interrupted call is repeated: a return value counts as interrupted exactly when
/// it reports error number 4 (`EINTR`). No success and no other error is ever repeated.
pub proof fn lemma_only_eintr_is_retried(ret: i32, long_ret: i64)
    ensures
        ret != i32::MIN ==> (interrupted_int(ret) <==> ret == -4),
        long_ret >= 0 ==> !interrupted_long(long_ret),
        interrupted_long(long_ret) ==> long_ret < 0 && errno_of_long(long_ret).0 == 4,
        -4096 < long_ret < 0 ==> (interrupted_long(long_ret) <==> long_ret == -4),
        -4096 < long_ret < 0 && long_ret != -4 ==> !interrupted_long(long_ret)
            && errno_of_long(long_ret).0 == -long_ret,
{
}

} // verus!
