use vstd::prelude::*;

use crate::errors::Error;
use crate::kernel::groups::SyscallGroup;

verus! {

/// What the exit stage of a system call translation does to the syscall
/// result register.
#[derive(Debug, Clone, Copy, PartialEq, Eq, Structural)]
pub enum SyscallExitResult {
    /// The SYSARG_RESULT register will be poked and changed to the c_int value.
    Value(i32),
    /// The SYSARG_RESULT register won't be changed.
    Unchanged,
    /// The SYSARG_RESULT register will be changed to the (negated) errno.
    Error(Error),
}

impl SyscallExitResult {
    pub fn is_none(&self) -> (r: bool)
        ensures
            r == (*self is Unchanged),
    {
        match *self {
            SyscallExitResult::Unchanged => true,
            _ => false,
        }
    }
}

/// What the exit stage of a system call translation does.
#[derive(Debug, Clone, Copy, PartialEq, Eq, Structural)]
pub enum ExitWork {
    /// Set the syscall result as said.
    Result(SyscallExitResult),
    /// Write the guest's working directory (`getcwd`).
    GetCwd,
    /// Report the emulated `chdir` a success.
    Chdir,
    /// Finish loading the program of `execve`.
    Execve,
}

/// The exit-stage work for a system call of group `group`.
pub fn exit_work(group: SyscallGroup) -> (r: ExitWork)
    ensures
        r == match group {
            SyscallGroup::Ptrace => ExitWork::Result(SyscallExitResult::Value(0)),
            SyscallGroup::GetCwd => ExitWork::GetCwd,
            SyscallGroup::Chdir => ExitWork::Chdir,
            SyscallGroup::Execve => ExitWork::Execve,
            _ => ExitWork::Result(SyscallExitResult::Unchanged),
        },
{
    match group {
        SyscallGroup::Ptrace => ExitWork::Result(crate::kernel::ptrace::ptrace::exit()),
        SyscallGroup::Wait => ExitWork::Result(crate::kernel::ptrace::wait::exit()),
        SyscallGroup::RenameAt => ExitWork::Result(crate::kernel::standard::rename_at::exit()),
        SyscallGroup::GetCwd => ExitWork::GetCwd,
        SyscallGroup::Chdir => ExitWork::Chdir,
        SyscallGroup::Execve => ExitWork::Execve,
        _ => ExitWork::Result(SyscallExitResult::Unchanged),
    }
}

} // verus!
