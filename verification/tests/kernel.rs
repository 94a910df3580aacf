use proot_rs::errors::{Error, EINVAL, ENOSYS, ERANGE, ENOENT};
use proot_rs::kernel::enter::{enter_work, EnterWork};
use proot_rs::kernel::exit::{exit_work, ExitWork, SyscallExitResult};
use proot_rs::kernel::groups::{syscall_group_from_sysnum, SyscallGroup};
use proot_rs::kernel::standard::chdir::{self, absolute_guest_path, ChdirSource};
use proot_rs::kernel::standard::getcwd;
use proot_rs::kernel::standard::paths::{
    deref_final, path_args, FollowRule, PathArg, AT_SYMLINK_FOLLOW, AT_SYMLINK_NOFOLLOW, O_CREAT,
    O_EXCL, O_NOFOLLOW,
};
use proot_rs::kernel::standard::rename_at;
use proot_rs::kernel::syscall::name_of_syscall;
use proot_rs::kernel::sysnum;
use proot_rs::kernel::{ptrace, ptracer};
use proot_rs::process::tracee::Tracee;
use proot_rs::register::regs::{
    RegVersion, Register, RegisterSet, Registers, SysArgIndex, REGISTER_SET_WORDS, VOID,
};
use proot_rs::sigactions::{signal_disposition, SignalDisposition};

fn tracee_with(words: &[(usize, u64)]) -> Tracee {
    let mut raw = RegisterSet { words: [0u64; REGISTER_SET_WORDS] };
    for (i, v) in words {
        raw.words[*i] = *v;
    }
    let mut tracee = Tracee::new(1);
    tracee.regs = Registers::from(1, raw);
    tracee
}

#[test]
fn test_sysnum_constants_match_sc() {
    assert_eq!(sysnum::EXECVE, sc::nr::EXECVE);
    assert_eq!(sysnum::PTRACE, sc::nr::PTRACE);
    assert_eq!(sysnum::WAIT4, sc::nr::WAIT4);
    assert_eq!(sysnum::GETCWD, sc::nr::GETCWD);
    assert_eq!(sysnum::CHDIR, sc::nr::CHDIR);
    assert_eq!(sysnum::FCHDIR, sc::nr::FCHDIR);
    assert_eq!(sysnum::OPEN, sc::nr::OPEN);
    assert_eq!(sysnum::OPENAT, sc::nr::OPENAT);
    assert_eq!(sysnum::STATX, sc::nr::STATX);
    assert_eq!(sysnum::NEWFSTATAT, sc::nr::NEWFSTATAT);
    assert_eq!(sysnum::NAME_TO_HANDLE_AT, sc::nr::NAME_TO_HANDLE_AT);
    assert_eq!(sysnum::FCHOWNAT, sc::nr::FCHOWNAT);
    assert_eq!(sysnum::UTIMENSAT, sc::nr::UTIMENSAT);
    assert_eq!(sysnum::MKNODAT, sc::nr::MKNODAT);
    assert_eq!(sysnum::MKDIR, sc::nr::MKDIR);
    assert_eq!(sysnum::RMDIR, sc::nr::RMDIR);
    assert_eq!(sysnum::UNLINK, sc::nr::UNLINK);
    assert_eq!(sysnum::LINKAT, sc::nr::LINKAT);
    assert_eq!(sysnum::SYMLINKAT, sc::nr::SYMLINKAT);
    assert_eq!(sysnum::UNAME, sc::nr::UNAME);
    assert_eq!(sysnum::BRK, sc::nr::BRK);
}

#[test]
fn test_syscall_groups() {
    assert_eq!(syscall_group_from_sysnum(sc::nr::EXECVE), SyscallGroup::Execve);
    assert_eq!(syscall_group_from_sysnum(sc::nr::PTRACE), SyscallGroup::Ptrace);
    assert_eq!(syscall_group_from_sysnum(sc::nr::WAIT4), SyscallGroup::Wait);
    assert_eq!(syscall_group_from_sysnum(sc::nr::CHDIR), SyscallGroup::Chdir);
    assert_eq!(syscall_group_from_sysnum(sc::nr::FCHDIR), SyscallGroup::Chdir);
    assert_eq!(syscall_group_from_sysnum(sc::nr::ACCESS), SyscallGroup::StandardSyscall);
    assert_eq!(syscall_group_from_sysnum(sc::nr::UTIMES), SyscallGroup::StandardSyscall);
    assert_eq!(syscall_group_from_sysnum(sc::nr::OPEN), SyscallGroup::Open);
    assert_eq!(syscall_group_from_sysnum(sc::nr::STATX), SyscallGroup::StatAt);
    assert_eq!(syscall_group_from_sysnum(sc::nr::MKNODAT), SyscallGroup::ChmodAccessMkNodAt);
    assert_eq!(syscall_group_from_sysnum(sc::nr::MKDIR), SyscallGroup::DirLinkAttr);
    assert_eq!(syscall_group_from_sysnum(sc::nr::LINKAT), SyscallGroup::LinkAt);
    assert_eq!(syscall_group_from_sysnum(sc::nr::MKDIRAT), SyscallGroup::UnlinkMkdirAt);
    assert_eq!(syscall_group_from_sysnum(sc::nr::RENAMEAT), SyscallGroup::RenameAt);
    assert_eq!(syscall_group_from_sysnum(sc::nr::UNAME), SyscallGroup::Uname);
    assert_eq!(syscall_group_from_sysnum(sc::nr::READ), SyscallGroup::Ignored);
    assert_eq!(syscall_group_from_sysnum(100000), SyscallGroup::Ignored);
}

#[test]
fn test_name_of_syscall() {
    assert_eq!(name_of_syscall(sc::nr::READ), Some("read"));
    assert_eq!(name_of_syscall(sc::nr::EXECVE), Some("execve"));
    assert_eq!(name_of_syscall(sc::nr::ACCEPT4), Some("accept4"));
    assert_eq!(name_of_syscall(sc::nr::STATX), Some("statx"));
    assert_eq!(name_of_syscall(sc::nr::_SYSCTL), Some("_sysctl"));
    assert_eq!(name_of_syscall(sc::nr::CLONE3), None);
    assert_eq!(name_of_syscall(100000), None);
}

#[test]
fn test_path_args() {
    let open = path_args(SyscallGroup::Open, sc::nr::OPEN).unwrap();
    assert_eq!(
        open,
        vec![PathArg {
            path: SysArgIndex::SysArg1,
            dirfd: None,
            follow: FollowRule::OpenFlags(SysArgIndex::SysArg2)
        }]
    );
    let statx = path_args(SyscallGroup::StatAt, sc::nr::STATX).unwrap();
    assert_eq!(statx[0].follow, FollowRule::AtSymlinkNoFollow(SysArgIndex::SysArg3));
    let handle = path_args(SyscallGroup::StatAt, sc::nr::NAME_TO_HANDLE_AT).unwrap();
    assert_eq!(handle[0].follow, FollowRule::AtSymlinkFollow(SysArgIndex::SysArg5));
    assert_eq!(path_args(SyscallGroup::StatAt, sc::nr::READ), Err(Error::errno(ENOSYS)));
    let link_at = path_args(SyscallGroup::LinkAt, sc::nr::LINKAT).unwrap();
    assert_eq!(link_at.len(), 2);
    assert_eq!(link_at[1].path, SysArgIndex::SysArg4);
    assert_eq!(link_at[1].dirfd, Some(SysArgIndex::SysArg3));
    let mknodat = path_args(SyscallGroup::ChmodAccessMkNodAt, sc::nr::MKNODAT).unwrap();
    assert_eq!(mknodat[0].follow, FollowRule::Never);
    let rmdir = path_args(SyscallGroup::DirLinkAttr, sc::nr::RMDIR).unwrap();
    assert_eq!(rmdir[0].follow, FollowRule::Never);
    let lstat = path_args(SyscallGroup::DirLinkAttr, sc::nr::LSTAT).unwrap();
    assert_eq!(lstat[0].follow, FollowRule::IfTrailingSlash);
    assert_eq!(path_args(SyscallGroup::Ignored, sc::nr::READ).unwrap(), vec![]);
}

#[test]
fn test_open_flags_constants_match_libc() {
    assert_eq!(O_NOFOLLOW, libc::O_NOFOLLOW as u64);
    assert_eq!(O_EXCL, libc::O_EXCL as u64);
    assert_eq!(O_CREAT, libc::O_CREAT as u64);
    assert_eq!(AT_SYMLINK_NOFOLLOW, libc::AT_SYMLINK_NOFOLLOW as u64);
    assert_eq!(AT_SYMLINK_FOLLOW, libc::AT_SYMLINK_FOLLOW as u64);
}

#[test]
fn test_deref_final() {
    // rsi holds the flags of open
    let rule = FollowRule::OpenFlags(SysArgIndex::SysArg2);
    let plain = tracee_with(&[(13, 0)]);
    assert!(deref_final(rule, &plain.regs, false));
    let nofollow = tracee_with(&[(13, O_NOFOLLOW)]);
    assert!(!deref_final(rule, &nofollow.regs, false));
    let excl_creat = tracee_with(&[(13, O_EXCL | O_CREAT)]);
    assert!(!deref_final(rule, &excl_creat.regs, false));
    let creat = tracee_with(&[(13, O_CREAT)]);
    assert!(deref_final(rule, &creat.regs, false));

    // r10 holds the flags of newfstatat
    let rule = FollowRule::AtSymlinkNoFollow(SysArgIndex::SysArg4);
    let nofollow = tracee_with(&[(7, AT_SYMLINK_NOFOLLOW)]);
    assert!(!deref_final(rule, &nofollow.regs, false));
    assert!(deref_final(rule, &nofollow.regs, true));
    let rule = FollowRule::AtSymlinkFollow(SysArgIndex::SysArg4);
    let follow = tracee_with(&[(7, AT_SYMLINK_FOLLOW)]);
    assert!(deref_final(rule, &follow.regs, false));
    assert!(!deref_final(rule, &plain.regs, false));
    assert!(deref_final(FollowRule::IfTrailingSlash, &plain.regs, true));
    assert!(!deref_final(FollowRule::Never, &plain.regs, true));
    assert!(deref_final(FollowRule::Always, &plain.regs, false));
}

#[test]
fn test_getcwd_enter_cancels() {
    let mut tracee = tracee_with(&[(15, sc::nr::GETCWD as u64)]);
    assert_eq!(getcwd::enter(&mut tracee), Ok(()));
    assert_eq!(tracee.regs.get(RegVersion::Current, Register::SysNum), VOID);
}

#[test]
fn test_getcwd_exit() {
    // rdi: buffer, rsi: size
    let mut tracee = tracee_with(&[(14, 0x1000), (13, 5)]);
    tracee.regs.save_current_regs(RegVersion::Original);
    assert_eq!(getcwd::exit(&mut tracee, b"/tmp", Ok(())), Ok(0x1000));
    assert_eq!(tracee.regs.get(RegVersion::Current, Register::SysResult), 5);

    let mut tracee = tracee_with(&[(14, 0x1000), (13, 4)]);
    tracee.regs.save_current_regs(RegVersion::Original);
    assert_eq!(getcwd::exit(&mut tracee, b"/tmp", Ok(())), Err(Error::errno(ERANGE)));

    let mut tracee = tracee_with(&[(14, 0), (13, 4)]);
    tracee.regs.save_current_regs(RegVersion::Original);
    assert_eq!(getcwd::exit(&mut tracee, b"/", Ok(())), Err(Error::errno(EINVAL)));

    let mut tracee = tracee_with(&[(14, 0x1000), (13, 0)]);
    tracee.regs.save_current_regs(RegVersion::Original);
    assert_eq!(getcwd::exit(&mut tracee, b"/", Ok(())), Err(Error::errno(EINVAL)));

    let mut tracee = tracee_with(&[(14, 0x1000), (13, 100)]);
    tracee.regs.save_current_regs(RegVersion::Original);
    assert_eq!(
        getcwd::exit(&mut tracee, b"/gone", Err(Error::errno(ENOENT))),
        Err(Error::errno(ENOENT))
    );
}

#[test]
fn test_chdir() {
    assert_eq!(chdir::source(sc::nr::CHDIR), Ok(ChdirSource::Path));
    assert_eq!(chdir::source(sc::nr::FCHDIR), Ok(ChdirSource::FileDescriptor));
    assert_eq!(chdir::source(sc::nr::READ), Err(Error::errno(ENOSYS)));
    assert_eq!(absolute_guest_path(b"/home", b"user"), b"/home/user".to_vec());
    assert_eq!(absolute_guest_path(b"/", b"tmp"), b"/tmp".to_vec());
    assert_eq!(absolute_guest_path(b"/home", b"/etc"), b"/etc".to_vec());
    assert_eq!(absolute_guest_path(b"/home", b""), b"/home/".to_vec());

    let mut tracee = tracee_with(&[(15, sc::nr::CHDIR as u64), (10, 1)]);
    assert_eq!(chdir::enter(&mut tracee), Ok(()));
    assert_eq!(tracee.regs.get(RegVersion::Current, Register::SysNum), VOID);
    assert_eq!(chdir::exit(&mut tracee), Ok(()));
    assert_eq!(tracee.regs.get(RegVersion::Current, Register::SysResult), 0);
    assert!(!tracee.regs.restore_original_regs);

    let mut tracee = tracee_with(&[(15, sc::nr::FCHDIR as u64)]);
    assert_eq!(chdir::enter(&mut tracee), Ok(()));
    assert_eq!(tracee.regs.get(RegVersion::Current, Register::SysNum), VOID);

    // any other system call is refused, and nothing is changed
    let mut tracee = tracee_with(&[(15, sc::nr::READ as u64)]);
    assert_eq!(chdir::enter(&mut tracee), Err(Error::errno(ENOSYS)));
    assert_eq!(tracee.regs.get(RegVersion::Current, Register::SysNum), sc::nr::READ as u64);
    assert!(!tracee.regs.regs_were_changed);
}

#[test]
fn test_enter_and_exit_work() {
    assert!(matches!(enter_work(SyscallGroup::Execve, sc::nr::EXECVE), Ok(EnterWork::Execve)));
    assert!(matches!(enter_work(SyscallGroup::GetCwd, sc::nr::GETCWD), Ok(EnterWork::GetCwd)));
    assert!(matches!(
        enter_work(SyscallGroup::Chdir, sc::nr::FCHDIR),
        Ok(EnterWork::Chdir(ChdirSource::FileDescriptor))
    ));
    match enter_work(SyscallGroup::SymLinkAt, sc::nr::SYMLINKAT) {
        Ok(EnterWork::Paths(v)) => assert_eq!(v[0].path, SysArgIndex::SysArg3),
        _ => panic!("symlinkat translates a path"),
    }
    assert_eq!(exit_work(SyscallGroup::Ptrace), ExitWork::Result(SyscallExitResult::Value(0)));
    assert_eq!(exit_work(SyscallGroup::Wait), ExitWork::Result(SyscallExitResult::Unchanged));
    assert_eq!(exit_work(SyscallGroup::GetCwd), ExitWork::GetCwd);
    assert_eq!(exit_work(SyscallGroup::Chdir), ExitWork::Chdir);
    assert_eq!(exit_work(SyscallGroup::Execve), ExitWork::Execve);
    assert_eq!(exit_work(SyscallGroup::Open), ExitWork::Result(SyscallExitResult::Unchanged));
}

#[test]
fn test_trivial_enter_and_exit() {
    assert_eq!(ptrace::ptrace::enter(), Ok(()));
    assert_eq!(ptrace::ptrace::exit(), SyscallExitResult::Value(0));
    assert_eq!(ptrace::wait::enter(), Ok(()));
    assert_eq!(ptrace::wait::exit(), SyscallExitResult::Unchanged);
    assert_eq!(ptracer::wait::enter(), Ok(()));
    assert_eq!(ptracer::wait::exit(), SyscallExitResult::Unchanged);
    assert_eq!(rename_at::enter(), Ok(()));
    assert_eq!(rename_at::exit(), SyscallExitResult::Unchanged);
    assert!(SyscallExitResult::Unchanged.is_none());
    assert!(!SyscallExitResult::Value(0).is_none());
}

#[test]
fn proot_prepare_sigactions_test() {
    assert_eq!(signal_disposition(libc::SIGSEGV), SignalDisposition::StopProgram);
    assert_eq!(signal_disposition(libc::SIGQUIT), SignalDisposition::StopProgram);
    assert_eq!(signal_disposition(libc::SIGUSR1), SignalDisposition::ShowInfo);
    assert_eq!(signal_disposition(libc::SIGUSR2), SignalDisposition::ShowInfo);
    assert_eq!(signal_disposition(libc::SIGCHLD), SignalDisposition::KeepDefault);
    assert_eq!(signal_disposition(libc::SIGKILL), SignalDisposition::KeepDefault);
    assert_eq!(signal_disposition(libc::SIGSTOP), SignalDisposition::KeepDefault);
}

#[test]
fn sigactions_prepare_sigactions_test() {
    // every other signal, even ^C, is ignored
    assert_eq!(signal_disposition(libc::SIGINT), SignalDisposition::Ignore);
    assert_eq!(signal_disposition(libc::SIGTERM), SignalDisposition::Ignore);
    assert_eq!(signal_disposition(libc::SIGHUP), SignalDisposition::Ignore);
    for sig in 1..32 {
        let d = signal_disposition(sig);
        let expected = match sig {
            libc::SIGQUIT | libc::SIGILL | libc::SIGABRT | libc::SIGFPE | libc::SIGSEGV => {
                SignalDisposition::StopProgram
            }
            libc::SIGUSR1 | libc::SIGUSR2 => SignalDisposition::ShowInfo,
            libc::SIGCHLD | libc::SIGCONT | libc::SIGTSTP | libc::SIGTTIN | libc::SIGTTOU
            | libc::SIGSTOP | libc::SIGKILL => SignalDisposition::KeepDefault,
            _ => SignalDisposition::Ignore,
        };
        assert_eq!(d, expected);
    }
}
