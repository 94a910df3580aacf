use vstd::prelude::*;

use crate::kernel::exit::SyscallExitResult;
use crate::process::tracee::Tracee;
use crate::register::regs::{model_get, RegVersion, Register};

verus! {

/// Exit stage of `execve`: when it succeeded, the new `/proc/self/exe` is
/// committed. The syscall result is left as it is.
pub fn translate(tracee: &mut Tracee) -> (r: SyscallExitResult)
    requires
        old(tracee).regs@.current is Some,
    ensures
        r == SyscallExitResult::Unchanged,
        final(tracee).regs@ == old(tracee).regs@,
        final(tracee).pid == old(tracee).pid,
        final(tracee).status == old(tracee).status,
        ({
            let result = model_get(old(tracee).regs@, RegVersion::Current, Register::SysResult);
            if (result as i64) < 0 || old(tracee).new_exe is None {
                final(tracee).exe == old(tracee).exe && final(tracee).new_exe == old(tracee).new_exe
            } else {
                final(tracee).exe == old(tracee).new_exe && final(tracee).new_exe is None
            }
        }),
{
    let syscall_result = tracee.regs.get(RegVersion::Current, Register::SysResult) as i64;
    if syscall_result < 0 {
        return SyscallExitResult::Unchanged;
    }
    if tracee.new_exe.is_some() {
        // execve happened; commit the new "/proc/self/exe"
        tracee.exe = tracee.new_exe.take();
    }
    SyscallExitResult::Unchanged
}

} // verus!
