use proot_rs::errors::{
    errno_to_word, int_to_word, Error, EACCES, EBADF, EINVAL, EISDIR, ELOOP, ENAMETOOLONG,
    ENOENT, ENOEXEC, ENOSYS, ENOTSUP, EPERM, ERANGE,
};
use proot_rs::register::reader::PATH_MAX;

#[test]
fn test_errno_constants_match_libc() {
    assert_eq!(EPERM, libc::EPERM);
    assert_eq!(ENOENT, libc::ENOENT);
    assert_eq!(ENOEXEC, libc::ENOEXEC);
    assert_eq!(EBADF, libc::EBADF);
    assert_eq!(EACCES, libc::EACCES);
    assert_eq!(EISDIR, libc::EISDIR);
    assert_eq!(EINVAL, libc::EINVAL);
    assert_eq!(ERANGE, libc::ERANGE);
    assert_eq!(ENAMETOOLONG, libc::ENAMETOOLONG);
    assert_eq!(ENOSYS, libc::ENOSYS);
    assert_eq!(ELOOP, libc::ELOOP);
    assert_eq!(ENOTSUP, libc::ENOTSUP);
    assert_eq!(PATH_MAX, libc::PATH_MAX as usize);
}

#[test]
fn test_error_words() {
    assert_eq!(Error::errno(ENOENT).get_errno(), ENOENT);
    // a system call reports an error as the negated errno
    assert_eq!(errno_to_word(ENOENT), (-2i64) as u64);
    assert_eq!(errno_to_word(0), 0);
    assert_eq!(int_to_word(-1), u64::MAX);
    assert_eq!(int_to_word(42), 42);
}
