use lrs::cstring::CString;
use lrs::flags::{
    access_mode_to_int, AccessMode, Flags, MODE_FILE, O_CLOEXEC, O_RDONLY, R_OK, W_OK, X_OK,
};

#[test]
fn cstring_from_path() {
    assert_eq!(CString::from_path(b"/tmp/x").as_bytes(), b"/tmp/x\0");
    assert_eq!(CString::from_path(b"").as_bytes(), b"\0");
    assert_eq!(CString::empty().as_bytes(), b"\0");
}

#[test]
fn cstring_bytes_mut() {
    let mut s = CString::from_path(b"abc");
    s.as_mut_bytes()[0] = b'x';
    assert_eq!(s.as_bytes(), b"xbc\0");
}

#[test]
fn cstring_unchecked_keeps_bytes() {
    let s = CString::from_bytes_unchecked(vec![b'a', 0, b'b']);
    assert_eq!(s.as_bytes(), &[b'a', 0, b'b']);
}

#[test]
fn default_flags() {
    let f = Flags::new();
    assert_eq!(f.bits(), O_RDONLY | O_CLOEXEC);
    assert_eq!(f.bits(), 0o2000000);
    assert_eq!(f.mode(), MODE_FILE);
    let mut g = Flags::from_int(0o101);
    g.set_mode(0o755);
    assert_eq!(g, Flags { bits: 0o101, mode: 0o755 });
}

#[test]
fn access_modes() {
    let none = AccessMode { read: false, write: false, execute: false };
    assert_eq!(access_mode_to_int(none), 0);
    let all = AccessMode { read: true, write: true, execute: true };
    assert_eq!(access_mode_to_int(all), R_OK | W_OK | X_OK);
    assert_eq!(access_mode_to_int(AccessMode { read: true, write: false, execute: false }), 4);
    assert_eq!(access_mode_to_int(AccessMode { read: false, write: true, execute: false }), 2);
}
