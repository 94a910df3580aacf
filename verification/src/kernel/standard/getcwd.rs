use vstd::prelude::*;

use crate::errors::{Error, EINVAL, ERANGE};
use crate::process::tracee::Tracee;
use crate::register::regs::{model_get, model_set, RegVersion, Register, SysArgIndex, VOID};

verus! {

/// `getcwd` is emulated: the system call is cancelled, the exit stage
/// writes the guest's working directory.
pub fn enter(tracee: &mut Tracee) -> (r: Result<(), Error>)
    requires
        old(tracee).regs@.current is Some,
    ensures
        r is Ok,
        final(tracee).regs@ == model_set(old(tracee).regs@, Register::SysNum, VOID),
        final(tracee).pid == old(tracee).pid,
        final(tracee).status == old(tracee).status,
{
    tracee.regs.cancel_syscall("Cancel getcwd and return our own value");
    Ok(())
}

/// Exit stage of `getcwd`, for the guest's working directory `guest_cwd`
/// and what checking that it still exists gave: the address where
/// `guest_cwd` and its NUL are to be written, with the syscall result set
/// to their length (the kernel's `getcwd` returns the length it filled).
/// `EINVAL` for a NULL buffer or a zero size, `ERANGE` when the buffer is
/// too small.
pub fn exit(tracee: &mut Tracee, guest_cwd: &[u8], cwd_check: Result<(), Error>) -> (r: Result<
    u64,
    Error,
>)
    requires
        old(tracee).regs@.current is Some,
        old(tracee).regs@.original is Some,
        guest_cwd@.len() + 1 <= u64::MAX,
    ensures
        ({
            let buf_addr = model_get(old(tracee).regs@, RegVersion::Original, Register::SysArg(SysArgIndex::SysArg1));
            let size = model_get(old(tracee).regs@, RegVersion::Original, Register::SysArg(SysArgIndex::SysArg2));
            if buf_addr == 0 || size == 0 {
                r == Err::<u64, Error>(Error { errno: EINVAL }) && final(tracee).regs@ == old(tracee).regs@
            } else if cwd_check is Err {
                r == Err::<u64, Error>(cwd_check->Err_0) && final(tracee).regs@ == old(tracee).regs@
            } else if guest_cwd@.len() + 1 > size {
                r == Err::<u64, Error>(Error { errno: ERANGE }) && final(tracee).regs@ == old(tracee).regs@
            } else {
                &&& r == Ok::<u64, Error>(buf_addr)
                &&& final(tracee).regs@ == model_set(
                    old(tracee).regs@,
                    Register::SysResult,
                    (guest_cwd@.len() + 1) as u64,
                )
            }
        }),
        final(tracee).pid == old(tracee).pid,
        final(tracee).status == old(tracee).status,
{
    let buf_addr = tracee.regs.get(RegVersion::Original, Register::SysArg(SysArgIndex::SysArg1));
    let size = tracee.regs.get(RegVersion::Original, Register::SysArg(SysArgIndex::SysArg2));
    if buf_addr == 0 || size == 0 {
        return Err(Error::errno(EINVAL));
    }
    // the working directory must still exist
    if let Err(e) = cwd_check {
        return Err(e);
    }
    let real_size: u64 = guest_cwd.len() as u64 + 1;
    if real_size > size {
        return Err(Error::errno(ERANGE));
    }
    tracee.regs.set(Register::SysResult, real_size, "update return value in getcwd::exit()");
    Ok(buf_addr)
}

} // verus!
