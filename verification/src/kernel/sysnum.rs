use vstd::prelude::*;

verus! {

// x86_64 numbers of the system calls that the translation handles.
pub const ACCEPT: usize = 43;
pub const ACCEPT4: usize = 288;
pub const ACCESS: usize = 21;
pub const ACCT: usize = 163;
pub const BIND: usize = 49;
pub const BRK: usize = 12;
pub const CHDIR: usize = 80;
pub const CHMOD: usize = 90;
pub const CHOWN: usize = 92;
pub const CHROOT: usize = 161;
pub const CONNECT: usize = 42;
pub const CREAT: usize = 85;
pub const EXECVE: usize = 59;
pub const FACCESSAT: usize = 269;
pub const FCHDIR: usize = 81;
pub const FCHMODAT: usize = 268;
pub const FCHOWNAT: usize = 260;
pub const FUTIMESAT: usize = 261;
pub const GETCWD: usize = 79;
pub const GETPEERNAME: usize = 52;
pub const GETSOCKNAME: usize = 51;
pub const GETXATTR: usize = 191;
pub const INOTIFY_ADD_WATCH: usize = 254;
pub const LCHOWN: usize = 94;
pub const LGETXATTR: usize = 192;
pub const LINK: usize = 86;
pub const LINKAT: usize = 265;
pub const LISTXATTR: usize = 194;
pub const LLISTXATTR: usize = 195;
pub const LREMOVEXATTR: usize = 198;
pub const LSETXATTR: usize = 189;
pub const LSTAT: usize = 6;
pub const MKDIR: usize = 83;
pub const MKDIRAT: usize = 258;
pub const MKNOD: usize = 133;
pub const MKNODAT: usize = 259;
pub const MOUNT: usize = 165;
pub const NAME_TO_HANDLE_AT: usize = 303;
pub const NEWFSTATAT: usize = 262;
pub const OPEN: usize = 2;
pub const OPENAT: usize = 257;
pub const PIVOT_ROOT: usize = 155;
pub const PTRACE: usize = 101;
pub const READLINK: usize = 89;
pub const READLINKAT: usize = 267;
pub const REMOVEXATTR: usize = 197;
pub const RENAME: usize = 82;
pub const RENAMEAT: usize = 264;
pub const RMDIR: usize = 84;
pub const SETXATTR: usize = 188;
pub const STAT: usize = 4;
pub const STATX: usize = 332;
pub const SWAPOFF: usize = 168;
pub const SWAPON: usize = 167;
pub const SYMLINK: usize = 88;
pub const SYMLINKAT: usize = 266;
pub const TRUNCATE: usize = 76;
pub const UMOUNT2: usize = 166;
pub const UNAME: usize = 63;
pub const UNLINK: usize = 87;
pub const UNLINKAT: usize = 263;
pub const USELIB: usize = 134;
pub const UTIME: usize = 132;
pub const UTIMENSAT: usize = 280;
pub const UTIMES: usize = 235;
pub const WAIT4: usize = 61;

} // verus!
