use vstd::prelude::*;

use crate::errors::{errno_to_word, errno_word, int_to_word, int_word, Error, EBADF};
use crate::kernel::execve::load_info::LoadInfo;
use crate::kernel::exit::SyscallExitResult;
use crate::register::regs::{
    model_get, model_save, model_set, model_wf, RegVersion, Register, RegisterSet, Registers,
    RegistersModel, VOID,
};

verus! {

#[derive(Debug, Clone, Copy, PartialEq, Eq, Structural)]
pub enum TraceeStatus {
    /// Enter syscall
    SysEnter,
    /// Exit syscall with no error
    SysExit,
    /// Exit syscall with error
    Error(Error),
}

impl TraceeStatus {
    pub fn is_err(&self) -> (r: bool)
        ensures
            r == (*self is Error),
    {
        match *self {
            TraceeStatus::Error(_) => true,
            _ => false,
        }
    }

    pub fn is_ok(&self) -> (r: bool)
        ensures
            r == !(*self is Error),
    {
        !self.is_err()
    }

    /// The errno of an error status, 0 otherwise.
    pub fn get_errno(&self) -> (r: i32)
        ensures
            r == (match *self {
                TraceeStatus::Error(e) => e.errno,
                _ => 0,
            }),
    {
        match *self {
            TraceeStatus::Error(err) => err.get_errno(),
            _ => 0,
        }
    }
}

#[derive(Debug, Clone, Copy, PartialEq, Eq, Structural)]
pub enum TraceeRestartMethod {
    /// Restart the tracee, without going through the exit stage
    WithoutExitStage,  // PTRACE_CONT
    /// Restart the tracee, with the exit stage
    WithExitStage,  // PTRACE_SYSCALL
    /// Do not restart the tracee
    NoRestart,
}

/// In the `ptrace()` environment, the `SIGSTOP` signal received by tracee
/// sometimes has a special meaning, and it is necessary to record the `SIGSTOP`
/// status for tracee to tell `Proot` how to handle the next incoming `SIGSTOP`
/// signal correctly.
#[derive(Debug, Clone, Copy, PartialEq, Eq, Structural)]
pub enum SigStopStatus {
    /// Allow SIGSTOP to be passed to tracee, which is the most common case.
    AllowDelivery,
    /// The current process is a new process and the next SIGSTOP signal is
    /// caused by automatically start tracing the new child process.
    RaisedByTraceClone,
    /// The next SIGSTOP signal is used to synchronize with Proot process, and
    /// is only used during creating the first tracee.
    EventloopSync,
}

/// Which stage of a system call a translation is about.
#[derive(Debug, Clone, Copy, PartialEq, Eq, Structural)]
pub enum SyscallStage {
    Enter,
    Exit,
}

/// Used to store global info common to all tracees.
#[derive(Debug)]
pub struct InfoBag {
    /// Used to know if the ptrace options is already set
    pub options_already_set: bool,
}

impl InfoBag {
    pub fn new() -> (r: InfoBag)
        ensures
            !r.options_already_set,
    {
        InfoBag { options_already_set: false }
    }
}

#[derive(Debug)]
pub struct Tracee {
    /// Process identifier.
    pub pid: i32,
    /// Whether the tracee is in the enter or exit stage.
    pub status: TraceeStatus,
    /// The ptrace's restart method depends on the status (enter or exit) and
    /// seccomp on/off.
    pub restart_how: TraceeRestartMethod,
    /// Cached version of the process' general purpose registers.
    pub regs: Registers,
    /// State of the seccomp acceleration for this tracee.
    pub seccomp: bool,
    /// Ensure the sysexit stage is always hit under seccomp.
    pub sysexit_pending: bool,
    /// Path to the executable, à la /proc/self/exe. Used in `execve` enter.
    pub new_exe: Option<Vec<u8>>,
    /// Path to the executable, à la /proc/self/exe. Used in `execve` exit.
    pub exe: Option<Vec<u8>>,
    /// Information about the current `execve` system call.
    pub load_info: Option<LoadInfo>,
    /// State for the special handling of SIGSTOP.
    pub sigstop_status: SigStopStatus,
}

/// The restart method chosen when none was chosen yet: without exit stage
/// under seccomp (unless an exit stage is pending), with it otherwise.
pub open spec fn reset_restart_spec(
    how: TraceeRestartMethod,
    seccomp: bool,
    sysexit_pending: bool,
) -> TraceeRestartMethod {
    if how == TraceeRestartMethod::NoRestart {
        if seccomp && !sysexit_pending {
            TraceeRestartMethod::WithoutExitStage
        } else {
            TraceeRestartMethod::WithExitStage
        }
    } else {
        how
    }
}

/// The registers once the enter stage is over with `status`: the modified
/// registers are saved; on error the syscall is cancelled and the negated
/// errno is put in the result register.
pub open spec fn enter_regs_spec(m: RegistersModel, status: Result<(), Error>) -> RegistersModel {
    let m1 = model_save(m, RegVersion::Modified);
    match status {
        Ok(_) => m1,
        Err(e) => model_set(
            model_set(m1, Register::SysNum, VOID),
            Register::SysResult,
            errno_word(e.errno),
        ),
    }
}

/// The status once the enter stage is over with `status`.
pub open spec fn enter_status_spec(status: Result<(), Error>) -> TraceeStatus {
    match status {
        Ok(_) => TraceeStatus::SysExit,
        Err(e) => TraceeStatus::Error(e),
    }
}

/// The result register written by the exit stage: an error of the enter
/// stage wins; otherwise the exit translation decides.
pub open spec fn exit_regs_spec(
    m: RegistersModel,
    status: TraceeStatus,
    result: SyscallExitResult,
) -> RegistersModel {
    match status {
        TraceeStatus::Error(e) => model_set(m, Register::SysResult, errno_word(e.errno)),
        _ => match result {
            SyscallExitResult::Unchanged => m,
            SyscallExitResult::Value(v) => model_set(m, Register::SysResult, int_word(v)),
            SyscallExitResult::Error(e) => model_set(m, Register::SysResult, errno_word(e.errno)),
        },
    }
}

impl Tracee {
    pub fn new(pid: i32) -> (r: Tracee)
        ensures
            r.pid == pid,
            r.status == TraceeStatus::SysEnter,
            r.restart_how == TraceeRestartMethod::NoRestart,
            r.regs@ == (RegistersModel {
                pid,
                current: None,
                original: None,
                modified: None,
                regs_were_changed: false,
                restore_original_regs: false,
            }),
            !r.seccomp,
            !r.sysexit_pending,
            r.new_exe is None,
            r.exe is None,
            r.load_info is None,
            r.sigstop_status == SigStopStatus::AllowDelivery,
    {
        Tracee {
            pid: pid,
            status: TraceeStatus::SysEnter,  // it always starts by the enter stage
            restart_how: TraceeRestartMethod::NoRestart,
            regs: Registers::new(pid),
            seccomp: false,
            sysexit_pending: false,
            new_exe: None,
            exe: None,
            load_info: None,
            sigstop_status: SigStopStatus::AllowDelivery,
        }
    }

    /// Chooses the restart method, if none was chosen yet.
    pub fn reset_restart_how(&mut self)
        ensures
            final(self).restart_how == reset_restart_spec(
                old(self).restart_how,
                old(self).seccomp,
                old(self).sysexit_pending,
            ),
            final(self).status == old(self).status,
            final(self).regs@ == old(self).regs@,
            final(self).seccomp == old(self).seccomp,
            final(self).sysexit_pending == old(self).sysexit_pending,
            final(self).pid == old(self).pid,
            final(self).new_exe == old(self).new_exe,
            final(self).exe == old(self).exe,
            final(self).load_info == old(self).load_info,
            final(self).sigstop_status == old(self).sigstop_status,
    {
        // the restart method might already have been set elsewhere
        if self.restart_how == TraceeRestartMethod::NoRestart {
            // When seccomp is enabled, all events are restarted in
            // non-stop mode, but this default choice could be overwritten
            // later if necessary.  The check against "sysexit_pending"
            // ensures WithExitStage/PTRACE_SYSCALL (used to hit the exit stage under
            // seccomp) is not cleared due to an event that would happen
            // before the exit stage, eg. PTRACE_EVENT_EXEC for the exit
            // stage of kernel.execve(2).
            if self.seccomp && !self.sysexit_pending {
                self.restart_how = TraceeRestartMethod::WithoutExitStage;
            } else {
                self.restart_how = TraceeRestartMethod::WithExitStage;
            }
        }
    }

    /// Hands out the restart method to apply now (`PTRACE_CONT`,
    /// `PTRACE_SYSCALL` or nothing), and reinitialises it.
    pub fn restart(&mut self) -> (r: TraceeRestartMethod)
        ensures
            r == old(self).restart_how,
            final(self).restart_how == TraceeRestartMethod::NoRestart,
            final(self).status == old(self).status,
            final(self).regs@ == old(self).regs@,
            final(self).seccomp == old(self).seccomp,
            final(self).sysexit_pending == old(self).sysexit_pending,
            final(self).pid == old(self).pid,
            final(self).new_exe == old(self).new_exe,
            final(self).exe == old(self).exe,
            final(self).load_info == old(self).load_info,
            final(self).sigstop_status == old(self).sigstop_status,
    {
        let how = self.restart_how;
        // the restart method is reinitialised here
        self.restart_how = TraceeRestartMethod::NoRestart;
        how
    }

    /// Whether the ptrace options must be set now: only the first time,
    /// which is then recorded in `info_bag`.
    pub fn check_and_set_ptrace_options(&self, info_bag: &mut InfoBag) -> (r: bool)
        ensures
            r == !old(info_bag).options_already_set,
            final(info_bag).options_already_set,
    {
        if info_bag.options_already_set {
            false
        } else {
            info_bag.options_already_set = true;
            true
        }
    }

    /// Return the byte size of a Word in tracee
    pub fn sizeof_word(&self) -> (r: usize)
        ensures
            r == 8,
    {
        8
    }

    /// Standard handling of syscall-stop under seccomp: at the enter stage,
    /// make sure the exit stage will be hit; at the exit stage, let the next
    /// enter stage be notified by seccomp. The translation follows.
    pub fn handle_syscall_stop_event(&mut self)
        ensures
            old(self).seccomp && old(self).status == TraceeStatus::SysEnter ==> final(self).restart_how == TraceeRestartMethod::WithExitStage && final(self).sysexit_pending,
            old(self).seccomp && old(self).status != TraceeStatus::SysEnter ==> final(self).restart_how == TraceeRestartMethod::WithoutExitStage && !final(self).sysexit_pending,
            !old(self).seccomp ==> final(self).restart_how == old(self).restart_how && final(self).sysexit_pending == old(self).sysexit_pending,
            final(self).status == old(self).status,
            final(self).regs@ == old(self).regs@,
            final(self).seccomp == old(self).seccomp,
            final(self).pid == old(self).pid,
            final(self).new_exe == old(self).new_exe,
            final(self).exe == old(self).exe,
            final(self).load_info == old(self).load_info,
            final(self).sigstop_status == old(self).sigstop_status,
    {
        if self.seccomp {
            match self.status {
                TraceeStatus::SysEnter => {
                    // sysenter: ensure the sysexit stage will be hit under seccomp.
                    self.restart_how = TraceeRestartMethod::WithExitStage;
                    self.sysexit_pending = true;
                },
                TraceeStatus::SysExit | TraceeStatus::Error(_) => {
                    // sysexit: the next sysenter will be notified by seccomp.
                    self.restart_how = TraceeRestartMethod::WithoutExitStage;
                    self.sysexit_pending = false;
                },
            }
        }
    }

    /// First part of a syscall-stop translation: caches the registers just
    /// retrieved from the tracee and tells which stage it is. At the enter
    /// stage the original registers are saved and will not be restored; at
    /// the exit stage they will be.
    pub fn begin_translate_syscall(&mut self, fetched: RegisterSet) -> (r: SyscallStage)
        ensures
            r == (if old(self).status == TraceeStatus::SysEnter {
                SyscallStage::Enter
            } else {
                SyscallStage::Exit
            }),
            r == SyscallStage::Enter ==> final(self).regs@ == model_save(
                RegistersModel {
                    current: Some(fetched@),
                    restore_original_regs: false,
                    ..old(self).regs@
                },
                RegVersion::Original,
            ),
            r == SyscallStage::Exit ==> final(self).regs@ == (RegistersModel {
                current: Some(fetched@),
                restore_original_regs: true,
                ..old(self).regs@
            }),
            final(self).status == old(self).status,
            final(self).restart_how == old(self).restart_how,
            final(self).seccomp == old(self).seccomp,
            final(self).sysexit_pending == old(self).sysexit_pending,
            final(self).pid == old(self).pid,
            final(self).new_exe == old(self).new_exe,
            final(self).exe == old(self).exe,
            final(self).load_info == old(self).load_info,
            final(self).sigstop_status == old(self).sigstop_status,
    {
        self.regs.fetch_regs(fetched);
        match self.status {
            TraceeStatus::SysEnter => {
                // Never restore original register values at the end of this stage.
                self.regs.set_restore_original_regs(false);
                // Saving the original registers here.
                // It is paramount in order to restore the regs after the exit stage,
                // and also as memory in order to remember the original values (like
                // the syscall number).
                self.regs.save_current_regs(RegVersion::Original);
                SyscallStage::Enter
            },
            _ => {
                // By default, restore original register values at the end of this stage.
                self.regs.set_restore_original_regs(true);
                SyscallStage::Exit
            },
        }
    }

    /// End of the enter stage, once the translation reported `status`: the
    /// registers possibly modified by the translation are saved; on error
    /// the syscall is cancelled and its errno kept for the exit stage. When
    /// no exit stage will be hit (restart without exit stage), the status
    /// goes back to the enter stage and the stack pointer is restored now.
    pub fn finish_translate_syscall_enter(&mut self, status: Result<(), Error>)
        requires
            old(self).regs@.current is Some,
            old(self).regs@.original is Some,
        ensures
            old(self).restart_how != TraceeRestartMethod::WithoutExitStage ==> final(self).regs@
                == enter_regs_spec(old(self).regs@, status) && final(self).status
                == enter_status_spec(status),
            old(self).restart_how == TraceeRestartMethod::WithoutExitStage ==> final(self).regs@
                == model_set(
                enter_regs_spec(old(self).regs@, status),
                Register::StackPointer,
                model_get(old(self).regs@, RegVersion::Original, Register::StackPointer),
            ) && final(self).status == TraceeStatus::SysEnter,
            final(self).restart_how == old(self).restart_how,
            final(self).seccomp == old(self).seccomp,
            final(self).sysexit_pending == old(self).sysexit_pending,
            final(self).pid == old(self).pid,
            final(self).new_exe == old(self).new_exe,
            final(self).exe == old(self).exe,
            final(self).load_info == old(self).load_info,
            final(self).sigstop_status == old(self).sigstop_status,
    {
        // Saving the registers potentially modified by the translation.
        // It's useful in order to know what the translation did to the registers.
        self.regs.save_current_regs(RegVersion::Modified);

        // In case of error reported by the translation/extension,
        // remember the tracee status for the "exit" stage and avoid
        // the actual syscall.
        match status {
            Err(error) => {
                self.regs.cancel_syscall("following error during enter stage, avoid syscall");
                self.regs.set(
                    Register::SysResult,
                    errno_to_word(error.get_errno()),
                    "following error during enter stage, remember errno for exit stage",
                );
                self.status = TraceeStatus::Error(error);
            },
            Ok(()) => {
                self.status = TraceeStatus::SysExit;
            },
        }

        // Restore tracee's stack pointer now if it won't hit
        // the sysexit stage (i.e. when seccomp is enabled and
        // there's nothing else to do).
        if self.restart_how == TraceeRestartMethod::WithoutExitStage {
            self.status = TraceeStatus::SysEnter;
            self.regs.restore_original(
                Register::StackPointer,
                "following enter stage, restoring stack pointer early because no exit stage",
            );
        }
    }

    /// End of the exit stage: the result register is set from the error of
    /// the enter stage, if any, or else from what the exit translation
    /// returned; the tracee goes back to the enter stage.
    pub fn finish_translate_syscall_exit(&mut self, result: SyscallExitResult)
        requires
            old(self).regs@.current is Some,
        ensures
            final(self).regs@ == exit_regs_spec(old(self).regs@, old(self).status, result),
            final(self).status == TraceeStatus::SysEnter,
            final(self).restart_how == old(self).restart_how,
            final(self).seccomp == old(self).seccomp,
            final(self).sysexit_pending == old(self).sysexit_pending,
            final(self).pid == old(self).pid,
            final(self).new_exe == old(self).new_exe,
            final(self).exe == old(self).exe,
            final(self).load_info == old(self).load_info,
            final(self).sigstop_status == old(self).sigstop_status,
    {
        if self.status.is_ok() {
            match result {
                // The syscall result won't be altered.
                SyscallExitResult::Unchanged => {},
                // The syscall result will be modified. This is not an error.
                SyscallExitResult::Value(value) => {
                    self.regs.set(
                        Register::SysResult,
                        int_to_word(value),
                        "following exit translation, setting new syscall result",
                    );
                },
                // The syscall result will be modified. This is an error.
                SyscallExitResult::Error(error) => {
                    self.regs.set(
                        Register::SysResult,
                        errno_to_word(error.get_errno()),
                        "following error during exit translation, setting errno",
                    );
                },
            }
        } else {
            let errno = self.status.get_errno();
            self.regs.set(
                Register::SysResult,
                errno_to_word(errno),
                "following previous error in enter stage, setting errno",
            );
        }
        // reset the tracee's status
        self.status = TraceeStatus::SysEnter;
    }
}

/// Choosing a restart method when one was already chosen changes nothing.
pub proof fn law_reset_restart_idempotent(
    how: TraceeRestartMethod,
    seccomp: bool,
    sysexit_pending: bool,
)
    ensures
        reset_restart_spec(reset_restart_spec(how, seccomp, sysexit_pending), seccomp, sysexit_pending)
            == reset_restart_spec(how, seccomp, sysexit_pending),
        reset_restart_spec(how, seccomp, sysexit_pending) != TraceeRestartMethod::NoRestart,
{
}

/// A translation error at the enter stage cancels the system call, and
/// whatever the exit translation would say, the tracee then sees the
/// negated errno as the result of the system call.
pub proof fn law_enter_error_is_reported(
    m: RegistersModel,
    error: Error,
    exit_result: SyscallExitResult,
    fetched: Seq<u64>,
)
    requires
        model_wf(m),
        m.current is Some,
        fetched.len() == crate::register::regs::REGISTER_SET_WORDS,
    ensures
        model_get(enter_regs_spec(m, Err(error)), RegVersion::Current, Register::SysNum) == VOID,
        model_get(enter_regs_spec(m, Err(error)), RegVersion::Current, Register::SysResult)
            == errno_word(error.errno),
        enter_status_spec(Err(error)) == TraceeStatus::Error(error),
        ({
            let at_exit = RegistersModel {
                current: Some(fetched),
                restore_original_regs: true,
                ..enter_regs_spec(m, Err(error))
            };
            model_get(
                exit_regs_spec(at_exit, enter_status_spec(Err(error)), exit_result),
                RegVersion::Current,
                Register::SysResult,
            ) == errno_word(error.errno)
        }),
{
    let m1 = model_save(m, RegVersion::Modified);
    let m2 = model_set(m1, Register::SysNum, VOID);
    crate::register::regs::law_set_then_get(m1, Register::SysNum, VOID);
    crate::register::regs::law_set_keeps_others(
        m2,
        Register::SysResult,
        Register::SysNum,
        errno_word(error.errno),
    );
    crate::register::regs::law_set_then_get(m2, Register::SysResult, errno_word(error.errno));
}

/// A successful enter stage leads to the exit stage, where the exit
/// translation alone decides the result.
pub proof fn law_enter_success_then_exit(m: RegistersModel, value: i32)
    requires
        model_wf(m),
        m.current is Some,
    ensures
        enter_status_spec(Ok(())) == TraceeStatus::SysExit,
        model_get(
            exit_regs_spec(m, TraceeStatus::SysExit, SyscallExitResult::Value(value)),
            RegVersion::Current,
            Register::SysResult,
        ) == int_word(value),
        exit_regs_spec(m, TraceeStatus::SysExit, SyscallExitResult::Unchanged) == m,
{
    crate::register::regs::law_set_then_get(m, Register::SysResult, int_word(value));
}

/// Directory file descriptor standing for the working directory.
pub const AT_FDCWD: i32 = -100;

/// The decimal digits of `n`.
pub open spec fn dec_digits(n: nat) -> Seq<u8>
    decreases n,
{
    if n < 10 {
        seq![(48 + n) as u8]
    } else {
        dec_digits(n / 10).push((48 + n % 10) as u8)
    }
}

/// `v` written in decimal, with a minus sign when negative.
pub open spec fn dec_i32(v: i32) -> Seq<u8> {
    if v < 0 {
        seq![0x2du8] + dec_digits((-v) as nat)
    } else {
        dec_digits(v as nat)
    }
}

fn push_digits(buf: &mut Vec<u8>, n: u64)
    ensures
        final(buf)@ == old(buf)@ + dec_digits(n as nat),
    decreases n,
{
    if n >= 10 {
        push_digits(buf, n / 10);
    }
    buf.push((48 + n % 10) as u8);
    assert(buf@ =~= old(buf)@ + dec_digits(n as nat));
}

fn push_bytes(buf: &mut Vec<u8>, s: &[u8])
    ensures
        final(buf)@ == old(buf)@ + s@,
{
    let mut k: usize = 0;
    while k < s.len()
        invariant
            k <= s@.len(),
            buf@ == old(buf)@ + s@.take(k as int),
        decreases s@.len() - k,
    {
        buf.push(s[k]);
        k = k + 1;
        assert(buf@ =~= old(buf)@ + s@.take(k as int));
    }
    assert(s@.take(k as int) =~= s@);
}

fn push_i32(buf: &mut Vec<u8>, v: i32)
    ensures
        final(buf)@ == old(buf)@ + dec_i32(v),
{
    if v < 0 {
        buf.push(0x2d);
        let m: u64 = (0i64 - v as i64) as u64;
        push_digits(buf, m);
        assert(buf@ =~= old(buf)@ + dec_i32(v));
    } else {
        push_digits(buf, v as u64);
    }
}

/// The path of the link, `/proc/<pid>/fd/<fd>`, to the file that `fd` of
/// process `pid` refers to.
pub open spec fn proc_fd_link(pid: i32, fd: i32) -> Seq<u8> {
    seq![0x2fu8, 0x70, 0x72, 0x6f, 0x63, 0x2f] + dec_i32(pid) + seq![0x2fu8, 0x66, 0x64, 0x2f]
        + dec_i32(fd)
}

/// Where the path behind a directory file descriptor comes from.
pub enum FdSource {
    /// `AT_FDCWD`: the guest's working directory.
    Cwd,
    /// The symbolic link `/proc/<pid>/fd/<fd>`, here given by its path.
    Link(Vec<u8>),
}

impl Tracee {
    /// Where the path of the directory file descriptor `fd` of this tracee
    /// is found.
    pub fn fd_source(&self, fd: i32) -> (r: FdSource)
        ensures
            fd == AT_FDCWD ==> r is Cwd,
            fd != AT_FDCWD ==> (r matches FdSource::Link(p) && p@ == proc_fd_link(self.pid, fd)),
    {
        if fd == AT_FDCWD {
            return FdSource::Cwd;
        }
        let mut p: Vec<u8> = Vec::new();
        // "/proc/"
        push_bytes(&mut p, &[0x2f, 0x70, 0x72, 0x6f, 0x63, 0x2f]);
        push_i32(&mut p, self.pid);
        // "/fd/"
        push_bytes(&mut p, &[0x2f, 0x66, 0x64, 0x2f]);
        push_i32(&mut p, fd);
        FdSource::Link(p)
    }
}

/// `/proc/<pid>/fd/<fd>` always points to an absolute path when `fd` is a
/// file or a directory: any other target is `EBADF`.
pub fn check_fd_link(target: &[u8]) -> (r: Result<(), Error>)
    ensures
        r is Ok <==> (target@.len() > 0 && target@[0] == 0x2f),
        r matches Err(e) ==> e.errno == EBADF,
{
    if target.len() > 0 && target[0] == 0x2f {
        Ok(())
    } else {
        Err(Error::errno(EBADF))
    }
}

} // verus!
