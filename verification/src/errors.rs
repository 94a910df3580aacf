use vstd::prelude::*;

verus! {

/// Operation not permitted.
pub const EPERM: i32 = 1;
/// No such file or directory.
pub const ENOENT: i32 = 2;
/// Exec format error.
pub const ENOEXEC: i32 = 8;
/// Bad file descriptor.
pub const EBADF: i32 = 9;
/// Permission denied.
pub const EACCES: i32 = 13;
/// Is a directory.
pub const EISDIR: i32 = 21;
/// Invalid argument.
pub const EINVAL: i32 = 22;
/// Result out of range.
pub const ERANGE: i32 = 34;
/// File name too long.
pub const ENAMETOOLONG: i32 = 36;
/// Operation not supported.
pub const ENOTSUP: i32 = 95;
/// Function not implemented.
pub const ENOSYS: i32 = 38;
/// Too many levels of symbolic links.
pub const ELOOP: i32 = 40;

/// An error raised while translating a system call; it carries the
/// (positive) `errno` code that the tracee will eventually observe.
#[derive(Debug, Clone, Copy, PartialEq, Eq, Structural)]
pub struct Error {
    pub errno: i32,
}

impl Error {
    /// Builds an error from an `errno` code.
    pub fn errno(errno: i32) -> (r: Error)
        ensures
            r.errno == errno,
    {
        Error { errno }
    }

    /// The `errno` code of this error.
    pub fn get_errno(&self) -> (r: i32)
        ensures
            r == self.errno,
    {
        self.errno
    }
}

} // verus!

verus! {

/// The value a system call returns to report `errno`: its negation, as a
/// machine word (two's complement).
pub open spec fn errno_word(errno: i32) -> u64 {
    if errno > 0 {
        (0x1_0000_0000_0000_0000int - errno) as u64
    } else {
        (0 - errno) as u64
    }
}

/// Encodes `errno` as the negative value a system call returns.
pub fn errno_to_word(errno: i32) -> (r: u64)
    ensures
        r == errno_word(errno),
{
    if errno > 0 {
        u64::MAX - (errno as u64) + 1
    } else {
        (0 - (errno as i64)) as u64
    }
}

/// A value given to a syscall result register, sign-extended as the
/// kernel does when a C `int` is returned in a 64-bit register.
pub open spec fn int_word(value: i32) -> u64 {
    if value >= 0 {
        value as u64
    } else {
        (0x1_0000_0000_0000_0000int + value) as u64
    }
}

/// Sign-extends a C `int` to a machine word.
pub fn int_to_word(value: i32) -> (r: u64)
    ensures
        r == int_word(value),
{
    if value >= 0 {
        value as u64
    } else {
        u64::MAX - ((-(value as i64)) as u64) + 1
    }
}

} // verus!
