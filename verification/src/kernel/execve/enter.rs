use vstd::prelude::*;

use crate::errors::{Error, EACCES, EINVAL, EISDIR};
use crate::kernel::execve::binfmt::shebang::opt_bytes_view;
use crate::kernel::execve::binfmt::shebang::copy_range;
use crate::kernel::execve::load_info::{relocatable, relocated_from, LoadInfo};
use crate::process::tracee::Tracee;

verus! {

/// The error `execve` reports for a failure to find its executable: the
/// Linux kernel answers `EACCES` when asked to execute a directory.
pub fn exec_error(error: Error) -> (r: Error)
    ensures
        r.errno == (if error.errno == EISDIR {
            EACCES
        } else {
            error.errno
        }),
{
    if error.errno == EISDIR {
        Error::errno(EACCES)
    } else {
        error
    }
}

/// Whether a loaded executable can be run through the loader: it needs an
/// ELF interpreter, which must be standalone.
pub open spec fn has_standalone_interp(li: LoadInfo) -> bool {
    li.interp matches Some(i) && i.interp is None
}

/// Enter stage of `execve`, once the executable was found (`raw_path` as
/// given, `host_path` translated) and loaded (`load_info`): remembers the
/// new `/proc/self/exe`, checks the ELF interpreter and computes the load
/// addresses.
pub fn translate(
    tracee: &mut Tracee,
    raw_path: Vec<u8>,
    host_path: Vec<u8>,
    new_exe: Option<Vec<u8>>,
    load_info: Result<LoadInfo, Error>,
) -> (r: Result<(), Error>)
    requires
        match load_info {
            Ok(li) => has_standalone_interp(li) ==> relocatable(li, false),
            Err(_) => true,
        },
    ensures
        opt_bytes_view(final(tracee).new_exe) == opt_bytes_view(new_exe),
        final(tracee).pid == old(tracee).pid,
        final(tracee).status == old(tracee).status,
        final(tracee).regs@ == old(tracee).regs@,
        match load_info {
            Err(e) => r == Err::<(), Error>(e),
            Ok(li) => if !has_standalone_interp(li) {
                r == Err::<(), Error>(Error { errno: EINVAL })
            } else {
                &&& r is Ok
                &&& final(tracee).load_info matches Some(n) && {
                    &&& opt_bytes_view(n.raw_path) == Some(raw_path@)
                    &&& opt_bytes_view(n.user_path) == Some(raw_path@)
                    &&& opt_bytes_view(n.host_path) == Some(host_path@)
                    &&& relocated_from(
                        (LoadInfo {
                            raw_path: li.raw_path,
                            user_path: li.user_path,
                            host_path: li.host_path,
                            ..n
                        }),
                        li,
                        false,
                    )
                }
            },
        },
{
    tracee.new_exe = new_exe;
    let mut load_info = match load_info {
        Ok(li) => li,
        Err(e) => return Err(e),
    };
    match &load_info.interp {
        None => return Err(Error::errno(EINVAL)),
        Some(interp) => {
            // an ELF interpreter is supposed to be standalone
            if interp.interp.is_some() {
                return Err(Error::errno(EINVAL));
            }
        },
    }
    let ghost li = load_info;
    let r = load_info.compute_load_addresses(false);
    let ghost computed = load_info;
    let user_path = copy_range(raw_path.as_slice(), 0, raw_path.len());
    assert(user_path@ =~= raw_path@);
    load_info.raw_path = Some(raw_path);
    load_info.user_path = Some(user_path);
    load_info.host_path = Some(host_path);
    assert((LoadInfo {
        raw_path: li.raw_path,
        user_path: li.user_path,
        host_path: li.host_path,
        ..load_info
    }) == computed);
    tracee.load_info = Some(load_info);
    r
}

} // verus!
