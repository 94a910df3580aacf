use vstd::prelude::*;

use crate::errors::{Error, ENOSYS};
use crate::kernel::groups::{group_of, SyscallGroup};
use crate::kernel::sysnum::{
    ACCESS, ACCT, CHMOD, CHOWN, CHROOT, CREAT, FACCESSAT, FCHMODAT, FCHOWNAT, FUTIMESAT,
    GETXATTR, LCHOWN, LGETXATTR, LINK, LINKAT, LISTXATTR, LLISTXATTR, LREMOVEXATTR, LSETXATTR,
    LSTAT, MKDIR, MKNOD, MKNODAT, NAME_TO_HANDLE_AT, NEWFSTATAT, OPEN, OPENAT, READLINK,
    REMOVEXATTR, RENAME, RMDIR, SETXATTR, STAT, STATX, SWAPOFF, SWAPON, SYMLINK, SYMLINKAT,
    TRUNCATE, UMOUNT2, UNLINK, USELIB, UTIME, UTIMENSAT, UTIMES,
};
use crate::register::regs::{model_get, model_version, RegVersion, Register, Registers, SysArgIndex};

verus! {

/// Do not follow a final symbolic link (`open` flag).
pub const O_NOFOLLOW: u64 = 0x20000;
/// Fail when the file exists (`open` flag).
pub const O_EXCL: u64 = 0x80;
/// Create the file (`open` flag).
pub const O_CREAT: u64 = 0x40;
/// Do not follow a final symbolic link (`*at` flag).
pub const AT_SYMLINK_NOFOLLOW: u64 = 0x100;
/// Follow a final symbolic link (`*at` flag).
pub const AT_SYMLINK_FOLLOW: u64 = 0x400;

/// Whether the final component of a path is dereferenced when the path is
/// translated.
#[derive(Debug, Clone, Copy, PartialEq, Eq, Structural)]
pub enum FollowRule {
    Always,
    Never,
    /// Only when the path ends with a slash.
    IfTrailingSlash,
    /// Unless the `open` flags in the argument hold `O_NOFOLLOW`, or both
    /// `O_EXCL` and `O_CREAT`.
    OpenFlags(SysArgIndex),
    /// When the `*at` flags in the argument hold `AT_SYMLINK_FOLLOW`, or
    /// the path ends with a slash.
    AtSymlinkFollow(SysArgIndex),
    /// Unless the `*at` flags in the argument hold `AT_SYMLINK_NOFOLLOW`,
    /// or when the path ends with a slash.
    AtSymlinkNoFollow(SysArgIndex),
}

/// A path argument of a system call: a guest path, to be replaced by the
/// host path it stands for.
#[derive(Debug, Clone, Copy, PartialEq, Eq, Structural)]
pub struct PathArg {
    /// The argument that points to the path.
    pub path: SysArgIndex,
    /// The argument that holds the directory a relative path starts from,
    /// for the `*at` system calls.
    pub dirfd: Option<SysArgIndex>,
    pub follow: FollowRule,
}

/// The path arguments that the enter stage of a system call translates, in
/// order; `ENOSYS` for a system call its group does not expect.
pub open spec fn path_args_spec(group: SyscallGroup, sysnum: usize) -> Result<Seq<PathArg>, Error> {
    match group {
        SyscallGroup::Open => Ok(
            seq![PathArg {
                path: SysArgIndex::SysArg1,
                dirfd: None,
                follow: FollowRule::OpenFlags(SysArgIndex::SysArg2),
            }],
        ),
        SyscallGroup::OpenAt => Ok(
            seq![PathArg {
                path: SysArgIndex::SysArg2,
                dirfd: Some(SysArgIndex::SysArg1),
                follow: FollowRule::OpenFlags(SysArgIndex::SysArg3),
            }],
        ),
        SyscallGroup::StatAt => {
            if sysnum == FCHOWNAT || sysnum == UTIMENSAT || sysnum == NEWFSTATAT || sysnum
                == STATX || sysnum == NAME_TO_HANDLE_AT {
                let flags = if sysnum == FCHOWNAT || sysnum == NAME_TO_HANDLE_AT {
                    SysArgIndex::SysArg5
                } else if sysnum == STATX {
                    SysArgIndex::SysArg3
                } else {
                    SysArgIndex::SysArg4
                };
                Ok(
                    seq![PathArg {
                        path: SysArgIndex::SysArg2,
                        dirfd: Some(SysArgIndex::SysArg1),
                        follow: if sysnum == NAME_TO_HANDLE_AT {
                            FollowRule::AtSymlinkFollow(flags)
                        } else {
                            FollowRule::AtSymlinkNoFollow(flags)
                        },
                    }],
                )
            } else {
                Err(Error { errno: ENOSYS })
            }
        },
        SyscallGroup::ChmodAccessMkNodAt => Ok(
            seq![PathArg {
                path: SysArgIndex::SysArg2,
                dirfd: Some(SysArgIndex::SysArg1),
                // mknodat() does not follow a final symbolic link
                follow: if sysnum == MKNODAT {
                    FollowRule::Never
                } else {
                    FollowRule::Always
                },
            }],
        ),
        SyscallGroup::DirLinkAttr => Ok(
            seq![PathArg {
                path: SysArgIndex::SysArg1,
                dirfd: None,
                follow: if sysnum == UNLINK || sysnum == RMDIR || sysnum == MKDIR {
                    FollowRule::Never
                } else {
                    FollowRule::IfTrailingSlash
                },
            }],
        ),
        SyscallGroup::LinkAt => Ok(
            seq![
                PathArg {
                    path: SysArgIndex::SysArg2,
                    dirfd: Some(SysArgIndex::SysArg1),
                    follow: FollowRule::AtSymlinkFollow(SysArgIndex::SysArg5),
                },
                PathArg {
                    path: SysArgIndex::SysArg4,
                    dirfd: Some(SysArgIndex::SysArg3),
                    follow: FollowRule::Never,
                },
            ],
        ),
        SyscallGroup::Link | SyscallGroup::Rename => Ok(
            seq![
                PathArg { path: SysArgIndex::SysArg1, dirfd: None, follow: FollowRule::Never },
                PathArg { path: SysArgIndex::SysArg2, dirfd: None, follow: FollowRule::Never },
            ],
        ),
        SyscallGroup::SymLink => Ok(
            seq![PathArg { path: SysArgIndex::SysArg2, dirfd: None, follow: FollowRule::Never }],
        ),
        SyscallGroup::SymLinkAt => Ok(
            seq![PathArg {
                path: SysArgIndex::SysArg3,
                dirfd: Some(SysArgIndex::SysArg2),
                follow: FollowRule::Never,
            }],
        ),
        SyscallGroup::StandardSyscall | SyscallGroup::ReadLink => Ok(
            seq![PathArg { path: SysArgIndex::SysArg1, dirfd: None, follow: FollowRule::Always }],
        ),
        _ => Ok(Seq::empty()),
    }
}

/// Lists the path arguments to translate at the enter stage.
pub fn path_args(group: SyscallGroup, sysnum: usize) -> (r: Result<Vec<PathArg>, Error>)
    ensures
        match path_args_spec(group, sysnum) {
            Ok(s) => r matches Ok(v) && v@ == s,
            Err(e) => r == Err::<Vec<PathArg>, Error>(e),
        },
{
    match group {
        SyscallGroup::Open => Ok(
            vec![PathArg {
                path: SysArgIndex::SysArg1,
                dirfd: None,
                follow: FollowRule::OpenFlags(SysArgIndex::SysArg2),
            }],
        ),
        SyscallGroup::OpenAt => Ok(
            vec![PathArg {
                path: SysArgIndex::SysArg2,
                dirfd: Some(SysArgIndex::SysArg1),
                follow: FollowRule::OpenFlags(SysArgIndex::SysArg3),
            }],
        ),
        SyscallGroup::StatAt => {
            // the flags argument depends on the system call
            let flags = if sysnum == FCHOWNAT || sysnum == NAME_TO_HANDLE_AT {
                SysArgIndex::SysArg5
            } else if sysnum == UTIMENSAT || sysnum == NEWFSTATAT {
                SysArgIndex::SysArg4
            } else if sysnum == STATX {
                SysArgIndex::SysArg3
            } else {
                return Err(Error::errno(ENOSYS));
            };
            let follow = if sysnum == NAME_TO_HANDLE_AT {
                FollowRule::AtSymlinkFollow(flags)
            } else {
                FollowRule::AtSymlinkNoFollow(flags)
            };
            Ok(vec![PathArg { path: SysArgIndex::SysArg2, dirfd: Some(SysArgIndex::SysArg1), follow }])
        },
        SyscallGroup::ChmodAccessMkNodAt => {
            let follow = if sysnum == MKNODAT {
                FollowRule::Never
            } else {
                FollowRule::Always
            };
            Ok(vec![PathArg { path: SysArgIndex::SysArg2, dirfd: Some(SysArgIndex::SysArg1), follow }])
        },
        SyscallGroup::DirLinkAttr => {
            let follow = if sysnum == UNLINK || sysnum == RMDIR || sysnum == MKDIR {
                FollowRule::Never
            } else {
                FollowRule::IfTrailingSlash
            };
            Ok(vec![PathArg { path: SysArgIndex::SysArg1, dirfd: None, follow }])
        },
        SyscallGroup::LinkAt => Ok(
            vec![
                PathArg {
                    path: SysArgIndex::SysArg2,
                    dirfd: Some(SysArgIndex::SysArg1),
                    follow: FollowRule::AtSymlinkFollow(SysArgIndex::SysArg5),
                },
                PathArg {
                    path: SysArgIndex::SysArg4,
                    dirfd: Some(SysArgIndex::SysArg3),
                    follow: FollowRule::Never,
                },
            ],
        ),
        SyscallGroup::Link | SyscallGroup::Rename => Ok(
            vec![
                PathArg { path: SysArgIndex::SysArg1, dirfd: None, follow: FollowRule::Never },
                PathArg { path: SysArgIndex::SysArg2, dirfd: None, follow: FollowRule::Never },
            ],
        ),
        SyscallGroup::SymLink => Ok(
            vec![PathArg { path: SysArgIndex::SysArg2, dirfd: None, follow: FollowRule::Never }],
        ),
        SyscallGroup::SymLinkAt => Ok(
            vec![PathArg {
                path: SysArgIndex::SysArg3,
                dirfd: Some(SysArgIndex::SysArg2),
                follow: FollowRule::Never,
            }],
        ),
        SyscallGroup::StandardSyscall | SyscallGroup::ReadLink => Ok(
            vec![PathArg { path: SysArgIndex::SysArg1, dirfd: None, follow: FollowRule::Always }],
        ),
        _ => Ok(Vec::new()),
    }
}

/// Whether the final component is dereferenced, for the rule `rule`, the
/// value `flags` of the rule's flags argument and whether the path ends
/// with a slash.
pub open spec fn deref_final_spec(rule: FollowRule, flags: u64, trailing_slash: bool) -> bool {
    match rule {
        FollowRule::Always => true,
        FollowRule::Never => false,
        FollowRule::IfTrailingSlash => trailing_slash,
        FollowRule::OpenFlags(_) => !((flags & O_NOFOLLOW) != 0 || ((flags & O_EXCL) != 0 && (
        flags & O_CREAT) != 0)),
        FollowRule::AtSymlinkFollow(_) => (flags & AT_SYMLINK_FOLLOW) != 0 || trailing_slash,
        FollowRule::AtSymlinkNoFollow(_) => (flags & AT_SYMLINK_NOFOLLOW) == 0 || trailing_slash,
    }
}

/// The argument that holds the flags a rule reads, if any.
pub open spec fn flags_arg(rule: FollowRule) -> Option<SysArgIndex> {
    match rule {
        FollowRule::OpenFlags(i) => Some(i),
        FollowRule::AtSymlinkFollow(i) => Some(i),
        FollowRule::AtSymlinkNoFollow(i) => Some(i),
        _ => None,
    }
}

/// Decides, from the current registers, whether the final component of a
/// path is dereferenced.
pub fn deref_final(rule: FollowRule, regs: &Registers, trailing_slash: bool) -> (r: bool)
    requires
        model_version(regs@, RegVersion::Current) is Some,
    ensures
        r == deref_final_spec(
            rule,
            match flags_arg(rule) {
                Some(i) => model_get(regs@, RegVersion::Current, Register::SysArg(i)),
                None => 0,
            },
            trailing_slash,
        ),
{
    match rule {
        FollowRule::Always => true,
        FollowRule::Never => false,
        FollowRule::IfTrailingSlash => trailing_slash,
        FollowRule::OpenFlags(i) => {
            let flags = regs.get(RegVersion::Current, Register::SysArg(i));
            !((flags & O_NOFOLLOW) != 0 || ((flags & O_EXCL) != 0 && (flags & O_CREAT) != 0))
        },
        FollowRule::AtSymlinkFollow(i) => {
            let flags = regs.get(RegVersion::Current, Register::SysArg(i));
            (flags & AT_SYMLINK_FOLLOW) != 0 || trailing_slash
        },
        FollowRule::AtSymlinkNoFollow(i) => {
            let flags = regs.get(RegVersion::Current, Register::SysArg(i));
            (flags & AT_SYMLINK_NOFOLLOW) == 0 || trailing_slash
        },
    }
}

/// The arguments that a handled system call takes as paths the kernel
/// resolves, each with the argument holding the directory a relative path
/// starts from (for the `*at` calls), per the x86_64 system call table
/// (`man 2` of each call). The target of a symbolic link is no path the
/// kernel resolves.
pub open spec fn kernel_path_args(sysnum: usize) -> Option<Map<SysArgIndex, Option<SysArgIndex>>> {
    let first = map![SysArgIndex::SysArg1 => None::<SysArgIndex>];
    let second_at = map![SysArgIndex::SysArg2 => Some(SysArgIndex::SysArg1)];
    if sysnum == ACCESS || sysnum == ACCT || sysnum == CHMOD || sysnum == CHOWN || sysnum == CHROOT
        || sysnum == GETXATTR || sysnum == LISTXATTR || sysnum == MKNOD || sysnum == CREAT
        || sysnum == REMOVEXATTR || sysnum == SETXATTR || sysnum == STAT || sysnum == SWAPOFF
        || sysnum == SWAPON || sysnum == TRUNCATE || sysnum == UMOUNT2 || sysnum == USELIB
        || sysnum == UTIME || sysnum == UTIMES || sysnum == OPEN || sysnum == READLINK || sysnum
        == LCHOWN || sysnum == LGETXATTR || sysnum == LLISTXATTR || sysnum == LREMOVEXATTR
        || sysnum == LSETXATTR || sysnum == LSTAT || sysnum == UNLINK || sysnum == RMDIR
        || sysnum == MKDIR {
        Some(first)
    } else if sysnum == FCHOWNAT || sysnum == NEWFSTATAT || sysnum == UTIMENSAT || sysnum
        == NAME_TO_HANDLE_AT || sysnum == STATX || sysnum == FCHMODAT || sysnum == FACCESSAT
        || sysnum == FUTIMESAT || sysnum == MKNODAT || sysnum == OPENAT {
        Some(second_at)
    } else if sysnum == LINK || sysnum == RENAME {
        Some(map![SysArgIndex::SysArg1 => None::<SysArgIndex>, SysArgIndex::SysArg2 => None])
    } else if sysnum == LINKAT {
        Some(
            map![
                SysArgIndex::SysArg2 => Some(SysArgIndex::SysArg1),
                SysArgIndex::SysArg4 => Some(SysArgIndex::SysArg3),
            ],
        )
    } else if sysnum == SYMLINK {
        Some(map![SysArgIndex::SysArg2 => None::<SysArgIndex>])
    } else if sysnum == SYMLINKAT {
        Some(map![SysArgIndex::SysArg3 => Some(SysArgIndex::SysArg2)])
    } else {
        None
    }
}

/// Every path argument of a handled system call is translated at its enter
/// stage, with the right directory argument, and nothing else is: the list
/// of the call's group holds exactly its path arguments.
pub proof fn law_every_path_argument_is_translated(sysnum: usize)
    requires
        kernel_path_args(sysnum) is Some,
    ensures
        ({
            let paths = kernel_path_args(sysnum)->0;
            &&& path_args_spec(group_of(sysnum), sysnum) is Ok
            &&& forall|i: int|
                0 <= i < path_args_spec(group_of(sysnum), sysnum)->Ok_0.len() ==> {
                    let a = #[trigger] path_args_spec(group_of(sysnum), sysnum)->Ok_0[i];
                    paths.contains_key(a.path) && paths[a.path] == a.dirfd
                }
            &&& forall|p: SysArgIndex|
                #[trigger] paths.contains_key(p) ==> exists|i: int|
                    0 <= i < path_args_spec(group_of(sysnum), sysnum)->Ok_0.len()
                        && #[trigger] path_args_spec(group_of(sysnum), sysnum)->Ok_0[i].path == p
        }),
{
    let paths = kernel_path_args(sysnum)->0;
    let g = group_of(sysnum);
    let l = path_args_spec(g, sysnum)->Ok_0;
    if l.len() == 2 {
        assert forall|p: SysArgIndex| #[trigger] paths.contains_key(p) implies exists|i: int|
            0 <= i < l.len() && #[trigger] l[i].path == p by {
            if p == l[0].path {
                assert(l[0].path == p);
            } else {
                assert(l[1].path == p);
            }
        }
    } else {
        assert forall|p: SysArgIndex| #[trigger] paths.contains_key(p) implies exists|i: int|
            0 <= i < l.len() && #[trigger] l[i].path == p by {
            assert(l[0].path == p);
        }
    }
}

/// Calls that act on a link itself (`link`, `rename`, `symlink`, `unlink`,
/// `rmdir`, `mkdir`, `mknodat`) never follow a final symbolic link.
pub proof fn law_link_calls_never_follow(sysnum: usize)
    requires
        sysnum == LINK || sysnum == RENAME || sysnum == SYMLINK || sysnum == SYMLINKAT || sysnum
            == UNLINK || sysnum == RMDIR || sysnum == MKDIR || sysnum == MKNODAT,
    ensures
        path_args_spec(group_of(sysnum), sysnum) is Ok,
        forall|i: int|
            0 <= i < path_args_spec(group_of(sysnum), sysnum)->Ok_0.len() ==> (
            #[trigger] path_args_spec(group_of(sysnum), sysnum)->Ok_0[i]).follow == FollowRule::Never,
{
}

/// The argument of a handled system call that holds its flags, per the
/// x86_64 system call table.
pub open spec fn kernel_flags_arg(sysnum: usize) -> Option<SysArgIndex> {
    if sysnum == OPEN {
        Some(SysArgIndex::SysArg2)
    } else if sysnum == OPENAT || sysnum == STATX {
        Some(SysArgIndex::SysArg3)
    } else if sysnum == NEWFSTATAT || sysnum == UTIMENSAT {
        Some(SysArgIndex::SysArg4)
    } else if sysnum == FCHOWNAT || sysnum == NAME_TO_HANDLE_AT || sysnum == LINKAT {
        Some(SysArgIndex::SysArg5)
    } else {
        None
    }
}

/// Whether the first path argument of a handled system call is
/// dereferenced, for the value `flags` of its flags argument and whether
/// the path ends with a slash: `open` and `openat` follow a final symbolic
/// link unless `O_NOFOLLOW`, or `O_CREAT` with `O_EXCL`, is given; the
/// `*at` calls with `AT_SYMLINK_NOFOLLOW` follow unless it is given, those
/// with `AT_SYMLINK_FOLLOW` only when it is given (a trailing slash always
/// makes them follow); the `l*` calls, `unlink`, `rmdir`, `mkdir`,
/// `mknodat`, `link`, `rename`, `symlink` and `symlinkat` act on the link
/// itself, but for a trailing slash on an `l*` call; the others follow.
pub proof fn law_follow_rules(sysnum: usize, flags: u64, trailing_slash: bool)
    requires
        kernel_path_args(sysnum) is Some,
    ensures
        ({
            let a = path_args_spec(group_of(sysnum), sysnum)->Ok_0[0];
            let deref = deref_final_spec(a.follow, flags, trailing_slash);
            &&& path_args_spec(group_of(sysnum), sysnum) is Ok
            &&& path_args_spec(group_of(sysnum), sysnum)->Ok_0.len() > 0
            &&& flags_arg(a.follow) == kernel_flags_arg(sysnum)
            &&& (sysnum == OPEN || sysnum == OPENAT) ==> deref == !((flags & 0x20000) != 0 || ((
            flags & 0x80) != 0 && (flags & 0x40) != 0))
            &&& (sysnum == NEWFSTATAT || sysnum == UTIMENSAT || sysnum == FCHOWNAT || sysnum
                == STATX) ==> deref == ((flags & 0x100) == 0 || trailing_slash)
            &&& (sysnum == NAME_TO_HANDLE_AT || sysnum == LINKAT) ==> deref == ((flags & 0x400)
                != 0 || trailing_slash)
            &&& (sysnum == LCHOWN || sysnum == LGETXATTR || sysnum == LLISTXATTR || sysnum
                == LREMOVEXATTR || sysnum == LSETXATTR || sysnum == LSTAT) ==> deref
                == trailing_slash
            &&& (sysnum == UNLINK || sysnum == RMDIR || sysnum == MKDIR || sysnum == MKNODAT
                || sysnum == LINK || sysnum == RENAME || sysnum == SYMLINK || sysnum == SYMLINKAT)
                ==> !deref
            &&& (sysnum == ACCESS || sysnum == ACCT || sysnum == CHMOD || sysnum == CHOWN || sysnum
                == CHROOT || sysnum == GETXATTR || sysnum == LISTXATTR || sysnum == MKNOD || sysnum
                == CREAT || sysnum == REMOVEXATTR || sysnum == SETXATTR || sysnum == STAT || sysnum
                == SWAPOFF || sysnum == SWAPON || sysnum == TRUNCATE || sysnum == UMOUNT2 || sysnum
                == USELIB || sysnum == UTIME || sysnum == UTIMES || sysnum == READLINK || sysnum
                == FCHMODAT || sysnum == FACCESSAT || sysnum == FUTIMESAT) ==> deref
        }),
{
}

} // verus!
