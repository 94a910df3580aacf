use vstd::prelude::*;

use crate::kernel::sysnum::{
    ACCEPT,
    ACCEPT4,
    ACCESS,
    ACCT,
    BIND,
    BRK,
    CHDIR,
    CHMOD,
    CHOWN,
    CHROOT,
    CONNECT,
    CREAT,
    EXECVE,
    FACCESSAT,
    FCHDIR,
    FCHMODAT,
    FCHOWNAT,
    FUTIMESAT,
    GETCWD,
    GETPEERNAME,
    GETSOCKNAME,
    GETXATTR,
    INOTIFY_ADD_WATCH,
    LCHOWN,
    LGETXATTR,
    LINK,
    LINKAT,
    LISTXATTR,
    LLISTXATTR,
    LREMOVEXATTR,
    LSETXATTR,
    LSTAT,
    MKDIR,
    MKDIRAT,
    MKNOD,
    MKNODAT,
    MOUNT,
    NAME_TO_HANDLE_AT,
    NEWFSTATAT,
    OPEN,
    OPENAT,
    PIVOT_ROOT,
    PTRACE,
    READLINK,
    READLINKAT,
    REMOVEXATTR,
    RENAME,
    RENAMEAT,
    RMDIR,
    SETXATTR,
    STAT,
    STATX,
    SWAPOFF,
    SWAPON,
    SYMLINK,
    SYMLINKAT,
    TRUNCATE,
    UMOUNT2,
    UNAME,
    UNLINK,
    UNLINKAT,
    USELIB,
    UTIME,
    UTIMENSAT,
    UTIMES,
    WAIT4,
};

verus! {

/// Used to organise system call numbers into an easily-matchable
/// enumeration.
#[derive(Debug, Clone, Copy, PartialEq, Eq, Structural)]
pub enum SyscallGroup {
    Ignored,
    Execve,
    Ptrace,
    Wait,
    Brk,
    GetCwd,
    Chdir,
    BindConnect,
    Accept,
    GetSockOrPeerName,
    SocketCall,
    StandardSyscall,  // syscalls that only require their path arguments to be translated
    Open,
    StatAt,
    ChmodAccessMkNodAt,
    InotifyAddWatch,
    DirLinkAttr,
    PivotRoot,
    LinkAt,
    Mount,
    OpenAt,
    Link,
    ReadLink,
    ReadLinkAt,
    Rename,
    RenameAt,
    SymLink,
    SymLinkAt,
    Uname,
    UnlinkMkdirAt,
}

/// The group of the x86_64 system call numbered `sysnum`.
pub open spec fn group_of(sysnum: usize) -> SyscallGroup {
    match sysnum {
        EXECVE => SyscallGroup::Execve,
        PTRACE => SyscallGroup::Ptrace,
        WAIT4 => SyscallGroup::Wait,
        BRK => SyscallGroup::Brk,
        GETCWD => SyscallGroup::GetCwd,
        FCHDIR | CHDIR => SyscallGroup::Chdir,
        BIND | CONNECT => SyscallGroup::BindConnect,
        ACCEPT | ACCEPT4 => SyscallGroup::Accept,
        GETSOCKNAME | GETPEERNAME => SyscallGroup::GetSockOrPeerName,
        ACCESS | ACCT | CHMOD | CHOWN | CHROOT | GETXATTR | LISTXATTR | MKNOD | CREAT | REMOVEXATTR | SETXATTR | STAT | SWAPOFF | SWAPON | TRUNCATE | UMOUNT2 | USELIB | UTIME | UTIMES => SyscallGroup::StandardSyscall,
        OPEN => SyscallGroup::Open,
        FCHOWNAT | NEWFSTATAT | UTIMENSAT | NAME_TO_HANDLE_AT | STATX => SyscallGroup::StatAt,
        FCHMODAT | FACCESSAT | FUTIMESAT | MKNODAT => SyscallGroup::ChmodAccessMkNodAt,
        INOTIFY_ADD_WATCH => SyscallGroup::InotifyAddWatch,
        LCHOWN | LGETXATTR | LLISTXATTR | LREMOVEXATTR | LSETXATTR | LSTAT | UNLINK | RMDIR | MKDIR => SyscallGroup::DirLinkAttr,
        PIVOT_ROOT => SyscallGroup::PivotRoot,
        LINKAT => SyscallGroup::LinkAt,
        MOUNT => SyscallGroup::Mount,
        OPENAT => SyscallGroup::OpenAt,
        READLINK => SyscallGroup::ReadLink,
        READLINKAT => SyscallGroup::ReadLinkAt,
        UNLINKAT | MKDIRAT => SyscallGroup::UnlinkMkdirAt,
        LINK => SyscallGroup::Link,
        RENAME => SyscallGroup::Rename,
        RENAMEAT => SyscallGroup::RenameAt,
        SYMLINK => SyscallGroup::SymLink,
        SYMLINKAT => SyscallGroup::SymLinkAt,
        UNAME => SyscallGroup::Uname,
        _ => SyscallGroup::Ignored,
    }
}

/// The group that decides how the system call numbered `sysnum` is
/// translated.
pub fn syscall_group_from_sysnum(sysnum: usize) -> (r: SyscallGroup)
    ensures
        r == group_of(sysnum),
{
    match sysnum {
        EXECVE => SyscallGroup::Execve,
        PTRACE => SyscallGroup::Ptrace,
        WAIT4 => SyscallGroup::Wait,
        BRK => SyscallGroup::Brk,
        GETCWD => SyscallGroup::GetCwd,
        FCHDIR | CHDIR => SyscallGroup::Chdir,
        BIND | CONNECT => SyscallGroup::BindConnect,
        ACCEPT | ACCEPT4 => SyscallGroup::Accept,
        GETSOCKNAME | GETPEERNAME => SyscallGroup::GetSockOrPeerName,
        ACCESS | ACCT | CHMOD | CHOWN | CHROOT | GETXATTR | LISTXATTR | MKNOD | CREAT | REMOVEXATTR | SETXATTR | STAT | SWAPOFF | SWAPON | TRUNCATE | UMOUNT2 | USELIB | UTIME | UTIMES => SyscallGroup::StandardSyscall,
        OPEN => SyscallGroup::Open,
        FCHOWNAT | NEWFSTATAT | UTIMENSAT | NAME_TO_HANDLE_AT | STATX => SyscallGroup::StatAt,
        FCHMODAT | FACCESSAT | FUTIMESAT | MKNODAT => SyscallGroup::ChmodAccessMkNodAt,
        INOTIFY_ADD_WATCH => SyscallGroup::InotifyAddWatch,
        LCHOWN | LGETXATTR | LLISTXATTR | LREMOVEXATTR | LSETXATTR | LSTAT | UNLINK | RMDIR | MKDIR => SyscallGroup::DirLinkAttr,
        PIVOT_ROOT => SyscallGroup::PivotRoot,
        LINKAT => SyscallGroup::LinkAt,
        MOUNT => SyscallGroup::Mount,
        OPENAT => SyscallGroup::OpenAt,
        READLINK => SyscallGroup::ReadLink,
        READLINKAT => SyscallGroup::ReadLinkAt,
        UNLINKAT | MKDIRAT => SyscallGroup::UnlinkMkdirAt,
        LINK => SyscallGroup::Link,
        RENAME => SyscallGroup::Rename,
        RENAMEAT => SyscallGroup::RenameAt,
        SYMLINK => SyscallGroup::SymLink,
        SYMLINKAT => SyscallGroup::SymLinkAt,
        UNAME => SyscallGroup::Uname,
        _ => SyscallGroup::Ignored,
    }
}

/// The system calls that are emulated or loaded rather than only having
/// their paths translated are dispatched by their number alone: `execve`
/// (and only it) to the loader, `chdir` and `fchdir` to the working
/// directory emulation, `getcwd` to its own, `ptrace` and `wait4` to theirs.
pub proof fn law_dispatch_of_emulated_calls(sysnum: usize)
    ensures
        group_of(sysnum) == SyscallGroup::Execve <==> sysnum == 59,
        group_of(sysnum) == SyscallGroup::Chdir <==> (sysnum == 80 || sysnum == 81),
        group_of(sysnum) == SyscallGroup::GetCwd <==> sysnum == 79,
        group_of(sysnum) == SyscallGroup::Ptrace <==> sysnum == 101,
        group_of(sysnum) == SyscallGroup::Wait <==> sysnum == 61,
{
}

} // verus!
