use vstd::prelude::*;

use crate::errors::{Error, ENOSYS};
use crate::kernel::sysnum::{CHDIR, FCHDIR};
use crate::process::tracee::Tracee;
use crate::register::regs::{model_get, model_set, RegVersion, Register, RegistersModel, VOID};

verus! {

/// Where the new working directory of `chdir` or `fchdir` comes from.
#[derive(Debug, Clone, Copy, PartialEq, Eq, Structural)]
pub enum ChdirSource {
    /// The path the first argument points to (`chdir`).
    Path,
    /// The file descriptor in the first argument (`fchdir`).
    FileDescriptor,
}

/// The source of the new working directory; `ENOSYS` for a system call
/// other than `chdir` and `fchdir`.
pub fn source(sysnum: usize) -> (r: Result<ChdirSource, Error>)
    ensures
        sysnum == CHDIR ==> r == Ok::<ChdirSource, Error>(ChdirSource::Path),
        sysnum == FCHDIR ==> r == Ok::<ChdirSource, Error>(ChdirSource::FileDescriptor),
        sysnum != CHDIR && sysnum != FCHDIR ==> r == Err::<ChdirSource, Error>(
            Error { errno: ENOSYS },
        ),
{
    if sysnum == CHDIR {
        Ok(ChdirSource::Path)
    } else if sysnum == FCHDIR {
        Ok(ChdirSource::FileDescriptor)
    } else {
        Err(Error::errno(ENOSYS))
    }
}

/// `path` made absolute against the working directory `cwd`: a relative
/// path is appended to `cwd`, with a slash between them when `cwd` does
/// not end with one.
pub open spec fn joined(cwd: Seq<u8>, path: Seq<u8>) -> Seq<u8> {
    if path.len() > 0 && path[0] == 0x2f {
        path
    } else if cwd.len() > 0 && cwd.last() != 0x2f {
        cwd + seq![0x2fu8] + path
    } else {
        cwd + path
    }
}

fn append(dst: &mut Vec<u8>, src: &[u8])
    ensures
        final(dst)@ == old(dst)@ + src@,
{
    let mut k: usize = 0;
    while k < src.len()
        invariant
            k <= src@.len(),
            dst@ == old(dst)@ + src@.take(k as int),
        decreases src@.len() - k,
    {
        dst.push(src[k]);
        k = k + 1;
        assert(dst@ =~= old(dst)@ + src@.take(k as int));
    }
    assert(src@.take(k as int) =~= src@);
}

/// The absolute guest path of the new working directory of `chdir`.
pub fn absolute_guest_path(cwd: &[u8], path: &[u8]) -> (r: Vec<u8>)
    ensures
        r@ == joined(cwd@, path@),
{
    let mut r: Vec<u8> = Vec::new();
    if path.len() > 0 && path[0] == 0x2f {
        append(&mut r, path);
        assert(r@ =~= path@);
        return r;
    }
    append(&mut r, cwd);
    if cwd.len() > 0 && cwd[cwd.len() - 1] != 0x2f {
        r.push(0x2f);
    }
    append(&mut r, path);
    assert(r@ =~= joined(cwd@, path@));
    r
}

/// Once the working directory is changed, the system call is cancelled:
/// it is fully emulated. `ENOSYS`, with the registers left alone, for a
/// system call other than `chdir` and `fchdir`.
pub fn enter(tracee: &mut Tracee) -> (r: Result<(), Error>)
    requires
        old(tracee).regs@.current is Some,
    ensures
        ({
            let sysnum = model_get(old(tracee).regs@, RegVersion::Current, Register::SysNum) as usize;
            if sysnum == CHDIR || sysnum == FCHDIR {
                &&& r is Ok
                &&& final(tracee).regs@ == model_set(old(tracee).regs@, Register::SysNum, VOID)
            } else {
                &&& r == Err::<(), Error>(Error { errno: ENOSYS })
                &&& final(tracee).regs@ == old(tracee).regs@
            }
        }),
        final(tracee).pid == old(tracee).pid,
        final(tracee).status == old(tracee).status,
{
    let sysnum = tracee.regs.get_sys_num(RegVersion::Current);
    match source(sysnum) {
        Ok(_) => {
            tracee.regs.cancel_syscall("Cancel chdir since it is fully emulated");
            Ok(())
        },
        Err(e) => Err(e),
    }
}

/// The emulated system call reports success, and the registers are not
/// restored.
pub fn exit(tracee: &mut Tracee) -> (r: Result<(), Error>)
    requires
        old(tracee).regs@.current is Some,
    ensures
        r is Ok,
        final(tracee).regs@ == (RegistersModel {
            restore_original_regs: false,
            ..model_set(old(tracee).regs@, Register::SysResult, 0)
        }),
        final(tracee).pid == old(tracee).pid,
        final(tracee).status == old(tracee).status,
{
    tracee.regs.set(Register::SysResult, 0u64, "update return value in chdir::exit()");
    tracee.regs.set_restore_original_regs(false);
    Ok(())
}

} // verus!
