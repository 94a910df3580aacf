use vstd::prelude::*;

use crate::errors::Error;
use crate::kernel::exit::SyscallExitResult;

verus! {

/// `wait4` needs nothing at the enter stage.
pub fn enter() -> (r: Result<(), Error>)
    ensures
        r is Ok,
{
    Ok(())
}

/// ... and leaves its result as it is.
pub fn exit() -> (r: SyscallExitResult)
    ensures
        r == SyscallExitResult::Unchanged,
{
    SyscallExitResult::Unchanged
}

} // verus!
