use proot_rs::errors::{Error, EBADF, ENOENT};
use proot_rs::kernel::exit::SyscallExitResult;
use proot_rs::register::regs::{RegVersion, Register, RegisterSet, REGISTER_SET_WORDS, VOID};
use proot_rs::process::proot::{
    is_syscall_stop_siginfo, EventAction, PRoot, StopWork, WaitEvent, SIGSTOP, SIGTRAP,
};
use proot_rs::process::tracee::{
    check_fd_link, FdSource, InfoBag, SigStopStatus, SyscallStage, Tracee, TraceeRestartMethod,
    TraceeStatus,
    AT_FDCWD,
};

#[test]
fn create_tracee() {
    let tracee = Tracee::new(42);
    assert_eq!(tracee.pid, 42);
    assert_eq!(tracee.status, TraceeStatus::SysEnter);
    assert_eq!(tracee.restart_how, TraceeRestartMethod::NoRestart);
    assert_eq!(tracee.sigstop_status, SigStopStatus::AllowDelivery);
}

#[test]
fn create_proot_and_tracee() {
    let mut proot = PRoot::new();

    // tracee 0 shouldn't exist
    assert!(proot.get_tracee(0).is_none());

    proot.create_tracee(0);

    // tracee 0 should exist
    assert!(proot.get_tracee(0).is_some());
}

#[test]
fn create_tracee_test() {
    let mut proot = PRoot::new();
    assert!(proot.get_tracee(0).is_none());
    proot.create_tracee(0);
    assert!(proot.get_tracee(0).is_some());
    assert_eq!(proot.get_tracee(0).unwrap().pid, 0);
}

#[test]
fn test_finished_tracee_is_forgotten() {
    let mut proot = PRoot::new();
    proot.create_tracee(7);
    proot.create_tracee(8);
    assert!(proot.has_alive_tracees());
    assert_eq!(proot.handle_wait_event(WaitEvent::Exited(7, 0)), EventAction::Forgotten(7));
    assert!(proot.get_tracee(7).is_none());
    assert!(proot.get_tracee(8).is_some());
    assert_eq!(proot.handle_wait_event(WaitEvent::Signaled(8, 9)), EventAction::Forgotten(8));
    assert!(!proot.has_alive_tracees());
}

#[test]
fn test_first_sigstop_asks_for_ptrace_options_once() {
    let mut proot = PRoot::new();
    proot.create_tracee(5);
    assert_eq!(
        proot.handle_wait_event(WaitEvent::Stopped(5, SIGSTOP)),
        EventAction::Handle { pid: 5, work: StopWork::SetPtraceOptions, signal: Some(SIGSTOP) }
    );
    assert_eq!(
        proot.handle_wait_event(WaitEvent::Stopped(5, SIGSTOP)),
        EventAction::Handle { pid: 5, work: StopWork::Nothing, signal: Some(SIGSTOP) }
    );
    // the restart method was chosen for the stopped tracee
    assert_eq!(proot.get_tracee(5).unwrap().restart_how, TraceeRestartMethod::WithExitStage);
}

#[test]
fn test_stop_events_ask_for_the_right_work() {
    let mut proot = PRoot::new();
    proot.create_tracee(3);
    assert_eq!(
        proot.handle_wait_event(WaitEvent::Stopped(3, SIGTRAP)),
        EventAction::Handle { pid: 3, work: StopWork::CheckSigInfo, signal: Some(SIGTRAP) }
    );
    assert_eq!(
        proot.handle_wait_event(WaitEvent::Stopped(3, 10)),
        EventAction::Handle { pid: 3, work: StopWork::Nothing, signal: Some(10) }
    );
    assert_eq!(
        proot.handle_wait_event(WaitEvent::PtraceSyscall(3)),
        EventAction::Handle { pid: 3, work: StopWork::TranslateSyscall, signal: None }
    );
    assert_eq!(
        proot.handle_wait_event(WaitEvent::PtraceEvent(3, SIGTRAP, 4)),
        EventAction::Handle { pid: 3, work: StopWork::Nothing, signal: None }
    );
    assert_eq!(proot.handle_wait_event(WaitEvent::Continued(3)), EventAction::Ignore);
    assert_eq!(proot.handle_wait_event(WaitEvent::StillAlive), EventAction::Ignore);
}

#[test]
fn test_syscall_stop_siginfo() {
    assert!(is_syscall_stop_siginfo(libc::SIGTRAP));
    assert!(is_syscall_stop_siginfo(libc::SIGTRAP | 0x80));
    assert!(!is_syscall_stop_siginfo(0));
    assert!(!is_syscall_stop_siginfo(libc::SIGSTOP));
}

#[test]
fn test_signal_numbers_match_libc() {
    assert_eq!(SIGTRAP, libc::SIGTRAP);
    assert_eq!(SIGSTOP, libc::SIGSTOP);
    assert_eq!(AT_FDCWD, libc::AT_FDCWD);
}

#[test]
fn test_take_and_put_tracee() {
    let mut proot = PRoot::new();
    proot.create_tracee(11);
    let mut tracee = proot.take_tracee(11).unwrap();
    assert!(proot.get_tracee(11).is_none());
    tracee.seccomp = true;
    proot.put_tracee(tracee);
    assert!(proot.get_tracee(11).unwrap().seccomp);
}

#[test]
fn test_fd_source() {
    let tracee = Tracee::new(1234);
    assert!(matches!(tracee.fd_source(AT_FDCWD), FdSource::Cwd));
    match tracee.fd_source(3) {
        FdSource::Link(p) => assert_eq!(p, b"/proc/1234/fd/3".to_vec()),
        FdSource::Cwd => panic!("fd 3 is no AT_FDCWD"),
    }
    match Tracee::new(-7).fd_source(-2) {
        FdSource::Link(p) => assert_eq!(p, b"/proc/-7/fd/-2".to_vec()),
        FdSource::Cwd => panic!("fd -2 is no AT_FDCWD"),
    }
}

#[test]
fn test_check_fd_link() {
    assert_eq!(check_fd_link(b"/etc/passwd"), Ok(()));
    assert_eq!(check_fd_link(b"pipe:[1234]"), Err(Error::errno(EBADF)));
    assert_eq!(check_fd_link(b""), Err(Error::errno(EBADF)));
}

#[test]
fn test_check_and_set_ptrace_options() {
    let tracee = Tracee::new(1);
    let mut info_bag = InfoBag::new();
    assert!(tracee.check_and_set_ptrace_options(&mut info_bag));
    assert!(info_bag.options_already_set);
    assert!(!tracee.check_and_set_ptrace_options(&mut info_bag));
}

/// Tests that the ptrace options are set when the first tracee stops
/// itself with SIGSTOP, and only then.
#[test]
fn create_set_ptrace_options() {
    let mut proot = PRoot::new();
    proot.create_tracee(4242);
    let action = proot.handle_wait_event(WaitEvent::Stopped(4242, SIGSTOP));
    assert_eq!(
        action,
        EventAction::Handle { pid: 4242, work: StopWork::SetPtraceOptions, signal: Some(SIGSTOP) }
    );
    let tracee = proot.get_tracee(4242).unwrap();
    assert_eq!(tracee.restart_how, TraceeRestartMethod::WithExitStage);
    // a new tracee inherits the options: they are not set again
    proot.create_tracee(4243);
    let action = proot.handle_wait_event(WaitEvent::Stopped(4243, SIGSTOP));
    assert_eq!(
        action,
        EventAction::Handle { pid: 4243, work: StopWork::Nothing, signal: Some(SIGSTOP) }
    );
}

fn register_set_with(values: &[(usize, u64)]) -> RegisterSet {
    let mut raw = RegisterSet { words: [0u64; REGISTER_SET_WORDS] };
    for (i, v) in values {
        raw.words[*i] = *v;
    }
    raw
}

#[test]
fn test_enter_error_cancels_and_is_reported() {

    let mut tracee = Tracee::new(9);
    // open("/x", 0): orig_rax 2, rsp 0x7000
    let regs = register_set_with(&[(15, 2), (19, 0x7000)]);
    assert_eq!(tracee.begin_translate_syscall(regs), SyscallStage::Enter);
    tracee.finish_translate_syscall_enter(Err(Error::errno(ENOENT)));
    assert_eq!(tracee.status, TraceeStatus::Error(Error::errno(ENOENT)));
    assert_eq!(tracee.regs.get(RegVersion::Current, Register::SysNum), VOID);
    assert_eq!(tracee.regs.get(RegVersion::Current, Register::SysResult), (-2i64) as u64);
    assert!(tracee.regs.push_regs().is_some());

    // at the exit stage the kernel reports ENOSYS for the cancelled call;
    // the error of the enter stage wins over the exit translation
    let regs = register_set_with(&[(15, VOID), (10, (-38i64) as u64), (19, 0x7000)]);
    assert_eq!(tracee.begin_translate_syscall(regs), SyscallStage::Exit);
    tracee.finish_translate_syscall_exit(SyscallExitResult::Value(0));
    assert_eq!(tracee.status, TraceeStatus::SysEnter);
    assert_eq!(tracee.regs.get(RegVersion::Current, Register::SysResult), (-2i64) as u64);
    // the original registers come back, but the result
    let pushed = tracee.regs.push_regs().unwrap();
    assert_eq!(pushed.words[15], 2);
    assert_eq!(pushed.words[10], (-2i64) as u64);
}

#[test]
fn test_enter_success_then_exit_value() {

    let mut tracee = Tracee::new(9);
    let regs = register_set_with(&[(15, 101)]);
    assert_eq!(tracee.begin_translate_syscall(regs), SyscallStage::Enter);
    tracee.finish_translate_syscall_enter(Ok(()));
    assert_eq!(tracee.status, TraceeStatus::SysExit);
    assert!(tracee.regs.push_regs().is_none());
    let regs = register_set_with(&[(15, 101), (10, 5)]);
    assert_eq!(tracee.begin_translate_syscall(regs), SyscallStage::Exit);
    tracee.finish_translate_syscall_exit(SyscallExitResult::Value(-1));
    assert_eq!(tracee.regs.get(RegVersion::Current, Register::SysResult), u64::MAX);
    assert_eq!(tracee.status, TraceeStatus::SysEnter);
}

#[test]
fn test_restart_method() {
    let mut tracee = Tracee::new(3);
    tracee.reset_restart_how();
    assert_eq!(tracee.restart_how, TraceeRestartMethod::WithExitStage);
    tracee.reset_restart_how();
    assert_eq!(tracee.restart_how, TraceeRestartMethod::WithExitStage);
    assert_eq!(tracee.restart(), TraceeRestartMethod::WithExitStage);
    assert_eq!(tracee.restart_how, TraceeRestartMethod::NoRestart);
    tracee.seccomp = true;
    tracee.reset_restart_how();
    assert_eq!(tracee.restart_how, TraceeRestartMethod::WithoutExitStage);
    // under seccomp, the enter stage asks for the exit stage
    tracee.handle_syscall_stop_event();
    assert_eq!(tracee.restart_how, TraceeRestartMethod::WithExitStage);
    assert!(tracee.sysexit_pending);
    assert!(TraceeStatus::Error(Error::errno(EBADF)).is_err());
    assert!(TraceeStatus::SysExit.is_ok());
    assert_eq!(TraceeStatus::Error(Error::errno(EBADF)).get_errno(), EBADF);
    assert_eq!(TraceeStatus::SysEnter.get_errno(), 0);
}
