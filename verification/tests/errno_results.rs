use lrs::errno::{
    retry_int, retry_long, retry_unit, rv, rv_int, rv_long, Attempt, Errno, EBADF, EINTR,
};

#[test]
fn rv_success_and_failure() {
    assert_eq!(rv(0), Ok(()));
    assert_eq!(rv(17), Ok(()));
    assert_eq!(rv(-EBADF), Err(Errno(9)));
    assert_eq!(rv(-EINTR), Err(Errno(4)));
    assert_eq!(rv(i32::MIN + 1), Err(Errno(i32::MAX)));
}

#[test]
fn rv_int_keeps_value() {
    assert_eq!(rv_int(3), Ok(3));
    assert_eq!(rv_int(-22), Err(Errno(22)));
}

#[test]
fn rv_long_keeps_value() {
    assert_eq!(rv_long(1 << 40), Ok(1 << 40));
    assert_eq!(rv_long(-29), Err(Errno(29)));
    assert_eq!(rv_long(-(1i64 << 32) - 5), Err(Errno(5)));
}

#[test]
fn retries() {
    assert!(matches!(retry_int(-EINTR), Attempt::Again));
    assert!(matches!(retry_int(0), Attempt::Done(Ok(0))));
    assert!(matches!(retry_int(-1), Attempt::Done(Err(Errno(1)))));
    assert!(matches!(retry_long(-4), Attempt::Again));
    assert!(matches!(retry_long(99), Attempt::Done(Ok(99))));
    assert!(matches!(retry_long(-5), Attempt::Done(Err(Errno(5)))));
    assert!(matches!(retry_unit(-4), Attempt::Again));
    assert!(matches!(retry_unit(0), Attempt::Done(Ok(()))));
    assert!(matches!(retry_unit(-28), Attempt::Done(Err(Errno(28)))));
}

#[test]
fn error_numbers_positive() {
    for ret in [-1, -4095, -EINTR, i32::MIN + 1] {
        match rv(ret) {
            Err(Errno(e)) => {
                assert!(e > 0);
                assert_eq!(e, -ret);
            },
            Ok(()) => panic!("negative return must fail"),
        }
    }
}
