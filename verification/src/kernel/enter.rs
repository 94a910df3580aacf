use vstd::prelude::*;

use crate::errors::Error;
use crate::kernel::groups::SyscallGroup;
use crate::kernel::standard::chdir::{source, ChdirSource};
use crate::kernel::standard::paths::{path_args, path_args_spec, PathArg};
use crate::kernel::sysnum::{CHDIR, FCHDIR};

verus! {

/// What the enter stage of a system call translation does.
pub enum EnterWork {
    /// Translate these path arguments, in order (none: nothing to do).
    Paths(Vec<PathArg>),
    /// Load the program of `execve`.
    Execve,
    /// Cancel `getcwd`, emulated at the exit stage.
    GetCwd,
    /// Change the guest's working directory and cancel the system call.
    Chdir(ChdirSource),
}

/// The enter-stage work for the system call `sysnum` of group `group`.
pub fn enter_work(group: SyscallGroup, sysnum: usize) -> (r: Result<EnterWork, Error>)
    ensures
        group == SyscallGroup::Execve ==> r matches Ok(EnterWork::Execve),
        group == SyscallGroup::GetCwd ==> r matches Ok(EnterWork::GetCwd),
        group == SyscallGroup::Chdir ==> (sysnum == CHDIR ==> r matches Ok(
            EnterWork::Chdir(ChdirSource::Path),
        )) && (sysnum == FCHDIR ==> r matches Ok(EnterWork::Chdir(ChdirSource::FileDescriptor)))
            && (sysnum != CHDIR && sysnum != FCHDIR ==> r is Err),
        group != SyscallGroup::Execve && group != SyscallGroup::GetCwd && group
            != SyscallGroup::Chdir ==> match path_args_spec(group, sysnum) {
            Ok(s) => r matches Ok(EnterWork::Paths(v)) && v@ == s,
            Err(e) => r matches Err(e2) && e2 == e,
        },
{
    match group {
        SyscallGroup::Execve => Ok(EnterWork::Execve),
        SyscallGroup::GetCwd => Ok(EnterWork::GetCwd),
        SyscallGroup::Chdir => match source(sysnum) {
            Ok(s) => Ok(EnterWork::Chdir(s)),
            Err(e) => Err(e),
        },
        _ => match path_args(group, sysnum) {
            Ok(v) => Ok(EnterWork::Paths(v)),
            Err(e) => Err(e),
        },
    }
}

} // verus!
